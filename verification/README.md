# kurec

The domain logic of KuRec, a recording system built around the mirakc tuner
server, written in Verus and verified.

- `version`: mirakc's running and newest versions and the update status.
- `genre`, `epg`, `program`: the codes of the broadcast EPG and the
  conversion of mirakc's programs into the stored program model.
- `epg_updater`: the steps of an EPG update (fetch, convert, save, announce).
- `mirakc_dispatch`: which domain event each of mirakc's events becomes and
  where it is published.
- `worker`: the decisions of the worker loops (stop, resubscribe, acknowledge)
  and the durable consumer names.
- `epg_process`, `handlers`, `streams`, `records`, `usecases`, `events`,
  `error_handling`: the remaining rules and types.

`app/` holds the command-line program: argument parsing, the async worker
loops, JSON decoding and the ports to NATS and mirakc.
