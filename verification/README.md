# backend

The decision logic of a hotel property-management back end, verified with Verus.

`src/` is the library. Each use case of the service is a function from the records it
reads (as plain values) to the records it writes or the reason it refuses, with a contract
that states which: billing settlement of receivables by payments and deposits, folios and
their totals, invoices, the business date and the night audit, changes to stays (extending a
departure, deferring an arrival, no-shows), reservation notes and edit sessions, rooms, rate
plans, and the read-model refreshes that follow a change. Amounts are the mantissa and scale
of a `rust_decimal::Decimal`, dates are `chrono` day numbers, and ids are 128-bit integers;
the arithmetic, parsing and formatting of those crates is called through a few trusted
wrappers whose contracts are documented where they are declared.

`app/` is the service layer around it: the storage interface, the transactions, the
conversions to and from `Decimal`, `NaiveDate`, `Uuid` and `DateTime<Utc>`, and the JSON
recorded in the audit log.

`tests/` runs the library on concrete values.
