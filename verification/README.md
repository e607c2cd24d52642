# solarman

A verified library for reading inverter data from the Solarman cloud API and
shaping it into InfluxDB rows, with a small logger program around it.

- `src/` is the library, verified with Verus:
  - `models` — the API's request and response shapes and the conversions of
    one reading (`to_string`, `to_u32`, `to_u16`, `to_u8`, `to_utc_datetime`);
  - `record` — finding readings by key, building the database row of a report
    (`CurrentData::from_report`, `plan_entry`) and turning a historical
    collection into a report (`report_at`, `device_state`);
  - `api` — endpoint addresses, request bodies, the status check of answers,
    the access-token decision and the numeric and yes/no settings;
  - `backfill` — the days fetched when backfilling history;
  - `text` — character helpers and the unsigned decimal syntax (reading and
    writing numerals);
  - `time` — the calls into `chrono` and `chrono-tz`, each with the contract
    it is trusted with;
  - `laws` — properties proved across functions.
- `app/` is the logger: environment settings, HTTP with `reqwest`, JSON with
  `serde`, floating-point readings and the InfluxDB writes.
- `tests/` exercises the library on concrete values.
