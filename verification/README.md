# payroll

The payroll case study: employees are added, changed, joined to and taken
out of the union, given time cards, sales receipts and service charges, and
paid on payday. Requests come as transactions; a script of transactions runs
in order and stops at the first that fails.

The library under `src/` is verified with Verus:

- `domain` — employees, their classifications, methods and affiliations,
  paychecks, and the models that contracts speak of.
- `dao` — the store interface (`EmployeeDao`), its errors, and the `Store`
  state that each operation's contract is written over.
- `memory_dao` — a store held in memory, proved against that interface.
- `pay` — the pay rules a payday consults (`PayCalculator`) and a table of
  precomputed paychecks that serves as such rules.
- `interface` — the use cases as the transactions run them, each of which
  changes the store exactly as its contract says or fails, names the use
  case that failed, and changes nothing.
- `usecase`, `usecase_impl` — the same use cases on their own, with errors
  that name the failing step (get, add, update, delete), and one type per
  use case that holds its parameters.
- `tx`, `tx_impl`, `tx_factory` — transactions as values, one type per
  transaction, and the factory that builds them.
- `tx_app` — running a script of transactions.
- `reader` — where a script is read from (terminal, text, file, with or
  without echo), as a description that `app/` opens.
- `laws` — properties of the store and of the transactions taken together.

Amounts (pay, hours, rates, dues) are single-precision numbers at the edge;
the library carries each one as its bit pattern.

`app/` holds what does I/O: opening readers, runners that echo and time each
transaction, the soft-landing application, and the serde and `thiserror`
forms of requests and errors.
