# rust_am_clients

Clients of Copland attestation managers (AM), as a library verified with
Verus (`src/`) and a thin program around it (`app/`).

The library holds what the clients decide and compute:

- `am_protocol`: Copland terms, evidence, sessions and the request and
  response messages of the AM protocol; `copland`: the term language of the
  standalone test client.
- `rodeo`, `resolute`: filling ASP arguments into a term from argument maps,
  adding appraisal, building run requests, reading the appraisal verdict from
  raw evidence, and choosing where the Rodeo client's term comes from.
- `hamr`: the protocol term for attesting HAMR-generated systems, and the
  branching-sequence builders it uses.
- `am_client`: where the AM client's session comes from, its requests, and
  where the comms client forwards a request.
- `framing`: the length-prefixed framing of messages over TCP.
- `client_args`, `test_client_args`: argument defaults and option handling.
- `json_value`, `str_map`: JSON values and string-keyed maps as plain data.

`app/` parses command lines, reads and writes JSON files, talks TCP, runs the
Copland virtual machine and calls the AM library (`rust_am_lib`) for
provisioning terms and appraisal summaries.
