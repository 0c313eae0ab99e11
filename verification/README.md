# redmine_api

A client library for the REST API of the Redmine issue tracker, verified with
Verus.

## Layout

- `src/` is the verified library (crate `redmine_api`):
  - `api/endpoint.rs`: the `Endpoint` trait (method, path, query parameters and
    body of every endpoint) and `ClientSettings`, which turns an endpoint into
    a ready-to-send `Request` (URL, headers, body).
  - `api/query.rs`, `api/json.rs`, `api/text.rs`, `api/dates.rs`: query
    parameters, JSON documents, decimal texts and calendar dates, with the
    texts they produce stated exactly.
  - `api/filters.rs` and the endpoint modules (`groups`, `issues`, `projects`,
    ...): one type per endpoint with its builder; `api/custom_fields.rs` also
    writes and reads custom field values.
  - `api/pagination.rs`: reading paginated replies, and the state machines that
    walk through all pages (`PageLoop`) or hand out their values one by one
    (`PageCursor`), with proved properties of both.
  - `api/bodies.rs`: the shape shared by the bodies that create and update
    objects.
- `tests/`: tests of the library on concrete values.
- `app/`: the networked side (blocking and async clients with `reqwest`,
  configuration from the environment, `serde` support). It sends what the
  library builds and hands the replies back to it.
