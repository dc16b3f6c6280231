# kipko

The verified core of a restaurant point-of-sale system.

- `src/` is the library, written in Verus and proved: fixed-point decimals
  and money (`decimal`, `money`, `currencies`), the restaurant's records and
  their state machines (`models`), double-entry bookkeeping (`accounting`),
  tax calculation with exemptions and a breakdown by jurisdiction (`tax`),
  sales figures (`reports`), the forms of the user interface (`forms`),
  calendar years (`time`), QR codes as data URLs (`qr`), and what the REST
  API's handlers compute between reading a request and writing the database
  (`handlers`, `queries`, `api`). Decimal arithmetic, UUIDs, clocks, QR
  rendering and base64 come from `rust_decimal`, `uuid`, `chrono`, `qrcode`
  and `base64`, each through a small function whose contract is stated
  beside it.
- `tests/` exercises the library through its public interface.
- `app/` is a small command-line program around the library: it reads the
  environment and arguments, converts amounts given as floating-point
  numbers, and prints results as JSON through serializable copies of the
  library's records.
