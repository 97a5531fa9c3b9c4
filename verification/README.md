# kunobi-ha

Leader election for Kubernetes controllers: of the replicas of a controller, the one that is
named in a shared Lease object leads, for as long as it keeps that lease renewed.

- `src/` is the protocol, verified with Verus. It sends nothing and waits for nothing: each part
  takes what came in (an answer of the API server, a reading of a clock, the end of a turn) and
  says what to do next. `src/leader/laws.rs` states what holds of the parts together.
- `app/` carries the protocol out against a live API server, with `kube` and `tokio`.
- `tests/` runs the protocol on concrete values.

What is not proved, but taken from outside crates, stands in a few small functions marked
`external_body`: the wall clock, the range and the sums of `chrono` dates, the range of `jiff`
timestamps, and random UUIDs. Each says in its comment what it claims.

## Timing

| Parameter         | Default | Meaning                                                    |
|-------------------|---------|------------------------------------------------------------|
| `lease_duration`  | 15s     | The lease expires this long after its last renewal         |
| `renew_deadline`  | 10s     | A leader that cannot renew for longer than this steps down |
| `retry_period`    | 2s      | How often the leader renews, and the others try            |
| `observe_timeout` | 5m      | How long attempts to acquire the lease may keep failing    |

The protocol reads, creates and replaces the lease; a controller needs the verbs `get`, `create`
and `update` on it, and no others.
