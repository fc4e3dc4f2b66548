# invoicing

The verified core of a desktop invoicing application for small businesses:
customers, business profiles, quotations, invoices, payment vouchers and PDF
templates.

- `src/` is the library, verified with Verus. It holds the records, the
  validation rules with their exact messages, the quotation and invoice
  status machines, the payment-driven invoice status, the overdue and
  restore rules, the QR and bank-account bookkeeping of business profiles,
  and the upload checks for images and templates. Each public function
  states what it returns in its contract; the `pub proof fn` items state the
  properties that hold across calls.
- Money amounts are `f64` values carried as `binary64::Real64`, their IEEE-754
  bit patterns; the library compares them exactly as IEEE-754 does and does no
  arithmetic on them.
- `app/` is the application around the library: the SQLite tables, files on
  disk, document numbering and the sums and products of amounts. It loads
  records, hands them to the library and stores what comes back.
- `tests/` runs the library on concrete cases.
