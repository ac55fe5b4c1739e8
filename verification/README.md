# monorail

A thread-per-core actor runtime. Each shard is a thread pinned to a CPU
with its own io_uring-driven scheduler; shards talk through bridges of
single-producer single-consumer queues; actors live on one shard and are
addressed from any shard.

## Layout

- `src/` is the verified library: the decisions of the runtime, each with a
  contract proved by Verus, and the laws that relate them.
  - `shard`: shard identities.
  - `backoff`, `scheduler`: how an idle scheduler waits, where a woken task
    is queued, how many tasks a round runs.
  - `select`: one step of polling two futures, the first one first.
  - `signals`: the signal bus of an actor (stop and kill, with priorities).
  - `actor`: addresses, mailbox messages, the order in which an actor
    winds down and reports to its parent, name lookup, the actor builder.
  - `translator`: a two-way map, used for the registry of actor names.
  - `task`: the stages of a task that travels between shards.
  - `topology`: configuration, the bridge plan, how a shard assembles its
    routing table, where the outcome of a topology is reported.
  - `mono`, `foreign`, `collections`, `heap`: values bound to one shard,
    values that travel together with the shard they come from (and the
    decision of where such a value must be dropped), and the thread-bound
    collections.
  - `io`: completion values, open modes, kernel support probes, the
    write-all loop.
  - `routing`, `sharded`, `sharded_slab`: routing requests to the shards
    of sharded structures, and the shard actors of the sharded hash map and
    the sharded slab.
  - `slots`: values kept in numbered slots, a freed slot being given out
    again; it holds a slab shard's entries and a bridge's pending tickets.
  - `bridge`: the table of tickets under which a shard waits for the
    outcomes of the tasks it sent, and the guard that frees a ticket whose
    task was dropped before it answered.
  - `config`: the settings of the entry-point attributes
    (`#[main(cores = 4)]`) and the core limit they give.
- `app/` is the runtime around the library: threads, the executor, the
  io_uring driver, bridges, actors' asynchronous event loops, files and
  sockets, and the parsing of the entry-point attributes' settings with
  `syn`. It makes the library's decisions happen; for instance its
  `HomeBound` wrapper sends a dropped foreign value back to its shard of
  origin, as `Foreign::release` decides.
- `tests/` runs the library on concrete values.
