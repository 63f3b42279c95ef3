# transfer_rs

A small HTTP file transfer server. The library under `src/` holds its logic
with Verus contracts:

- `config`: the configuration (address, worker count, storage directory), its
  defaults (storage in the project directory's `storage` folder), and `FetchConfig`, the step-by-step procedure that finds, creates,
  reads, parses and writes back the configuration file.
- `routing`: the route and the query parameters of a request URL.
- `handlers`: the routing table and the request handlers (`not_found`,
  `download`, `list`), and the response sent for a failed request.
- `common`: responses, requests, handler errors, file opening modes and the
  project directory derived from the executable's path.
- `text`: text splitting and joining.

Paths are joined as on Unix, where the server runs.

`app/` is the program around it: command line, terminal prompts, files, the
listening socket and worker threads, and the conversions to `tiny_http` types.
