# sdkwork_search

Search over documents that a PostgreSQL database holds: full-text and fuzzy search with
filters, facets and highlights, search by embedding, suggestions, recommendations,
promotions, and the upload of documents.

`src/` is the library, verified with Verus. It turns requests into statements for the
database (`Statement`: a text and the values bound to it) and rows into answers. Each
contract gives the text of the statement and the values exactly. Files whose name ends in
`_laws`, and the functions whose name starts with `lemma_`, state what holds of several
functions together, for instance that the text of a search does not depend on the values
that are searched for, or that facets count documents whatever text is searched for.

`app/` is the server around it: it reads the environment, talks to the database over
`sqlx`, and serves HTTP with `axum`. Floating-point scores are compared and divided there.

`tests/` runs the library, with the outside crates that it calls.

Statements of the search provider number their parameters (`$1`). Statements of the
repositories name them (`:tenant_id`); `named` numbers them in the order in which the names
first appear. `query_laws` proves that order for each statement, and the contract of the
function that sends one gives the values in the same order.

`tables` writes down, as spec functions, what the statements do to the tables; `store_laws`
proves over it what is read back of what was written. Nothing shows that a database does
what `tables` says: that is SQL's part.
