# umbra-storage-nfs-userspace

The verified logic of a storage provider that speaks NFSv4.0 from userspace.

`src/` is the library. It never opens a socket: a transport is whatever implements
`transport::RawTransport`, and the contract of every driver says which exchanges it
carries out and what it makes of the answers. `fake::FakeTransport` is an in-memory
server with a full model of its own, so the drivers can be run and the model can be
reasoned about.

| Module | What it holds |
| --- | --- |
| `error`, `text`, `bytes`, `contract`, `layout`, `storage` | error domains and their classification, renderings, byte order, the storage contract's types, names on the export |
| `transport`, `fake` | the wire vocabulary and shape helpers, the in-memory server and replay log |
| `handle`, `state`, `pdu` | filehandles, sessions, sequenced open state, client incarnations, call ownership |
| `identity`, `anchor`, `pages`, `namespace` | object identity, contained path resolution, bounded listings, namespace mutations |
| `crud`, `ops`, `capability`, `probe` | reads and writes on an open object, the operations surface, what is offered and what is refused, the boundary probe |
| `replay`, `journal`, `authority` | replay accounting, the durable retry journal, writer admission and outage recovery |
| `integration` | one protocol state over one transport |

Facts that relate several functions are public proof functions next to them, for
example `pages::listing::a_listing_delivers_every_name_once` or
`anchor::a_path_is_contained_in_its_anchor`. Those on the in-memory server stand in
`fake`, `pages::listing`, `pages::rotation`, `crud::opening` and
`journal::round_trip`.

`app/` is ordinary Rust around it: the JSON records the run layout keeps on the
export, and displayable copies of the failures. `tests/` runs the library over the
in-memory server.
