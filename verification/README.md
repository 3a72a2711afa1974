# mmitm

A "meet me in the middle" service: a group of people share where they are,
and the service suggests venues that are fair for everyone to reach.

## Layout

- `src/` is the library, verified with Verus. Every public function states in
  its contract what it returns or changes:
  - `session` and `store`: collaborative sessions (create, join by id or join
    code, report locations, the recommendation cycle, expiry) over a table of
    sessions whose keys never repeat;
  - `ranking`: the stable ordering of venues by travel-time fairness;
  - `google_maps`, `geocoding`, `recommendations`: turning the replies of the
    mapping services into venues, travel-time tables, links and the final
    recommendations;
  - `validation`, `config`, `error`, `geometry`: request checks, settings,
    error replies and the choice of search area;
  - `laws`: properties that span several operations, stated and proved;
  - `world`: the clock, fresh identifiers and random draws, each with a
    contract that holds of every value it can return.
- `tests/`: tests of the library on concrete values.
- `app/`: the HTTP server around the library (routing, JSON, calls to the
  mapping services, floating-point geometry and scoring).

## Collections

The sessions are keyed by text (session ids and join codes), participants by
user id, and the supported place types are texts. vstd's specifications of
`HashMap` and `HashSet` say what a lookup returns only for key types that
obey its key model, which vstd grants to integers and `bool` but not to
`String` or `&str`; granting it here would take an unproved assumption. So
these collections are vectors: the session table keeps each id and each join
code once (a type invariant), a session keeps each user id once, and the list
of place types holds no text twice; their contracts are stated over maps,
sets and sequences.
