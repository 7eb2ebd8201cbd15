# owner-signal-persona-orchestrate

The owner-only contract for administering orchestration: the orders an owner
may send (create or retire a role, retire a lane, refresh the repository
index, register a lane, set a lane's authority), the replies it receives,
and the contract-local operation root that names each order.

- `src/` is the verified library: the records (`nouns`, `orders`,
  `replies`), the channel's operations and their roots (`channel`), and the
  decisions of the retirement record framing (`retirement`), with the laws
  that relate them.
- `app/` is the wire side: archivable copies of the records, and the Nota
  codec for retirements, which calls the library for every decision.
- `tests/` exercises the library on concrete values.
