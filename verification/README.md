# querymt_agent

The logic of an agent that works in sessions, verified with Verus.

- `src/` is the library. What a session keeps between its turns, how a prompt, a turn, a
  tool call, an undo or the set-up of a session runs its course, and how sessions,
  providers and nodes of a mesh find each other are stated in contracts and proved.
  Work that reaches outside is asked for and reported back: each course is a state
  machine that takes an event and answers with the next action.
- `tests/` runs the library on concrete values.
- `app/` performs the actions: it waits, stores, calls models and tools, walks
  directories, starts processes and passes messages between actors.

What the proofs rest on without proof are the functions marked `external_body` and the
types declared beside them. The comment above each says which outside function it calls
and what it claims of it.
