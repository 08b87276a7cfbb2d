# plain_storage

A graph index over vectors in which every node keeps its vector uncompressed.

`src/` decides which nodes a search reads, what it makes of each of them, in
which order, and what is written back to a node. Pages, table rows and the
distance function belong to the caller, who hands them in as functions; the
contracts say what those functions are asked and what is done with their
answers. Scalars and distances are type parameters, so a caller with `f32`
vectors uses the library as it is.

| module | holds |
| --- | --- |
| `item_pointer` | pointers to items, sets of them |
| `neighbor`, `neighbor_store` | neighbours with distances; where links are looked up |
| `plain_node` | nodes and their links |
| `reading` | what a reader of nodes is asked and gives |
| `search` | the state of a search |
| `distance_measure` | distances from a query, from a node, from a table row |
| `plain_storage` | opening the storage, creating and linking nodes |
| `plain_search` | starting a search and visiting nodes |
| `laws` | what holds across calls |

`app/` joins the library to relations of a Postgres server.
