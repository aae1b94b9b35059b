# limbo_util

Names, expressions and URIs of an embedded SQL database, and the plans of its
simulator. The library is written in Verus: every function in `src/` is proved
to do what its `ensures` says.

- `ident`, `name`, `text`: identifiers with and without quotes, and the strings
  they are made of.
- `ast`, `same`, `equivalence`: expressions, their equality, and their
  equivalence where they are written otherwise. `symmetry`, `reflexivity`,
  `transitivity` and `rewriting` hold what is true of all of them.
- `schema`, `loader`: columns of tables, and loading the schema table.
- `percent`, `uri`, `uri_laws`: opening a database by a URI.
- `simulator`: plans of interactions with a database, a shadow of the tables
  they leave behind, and carrying them out.

Doubles are held by their bits, and a `SELECT` inside an expression by a number.
`app/` takes syntax trees of the SQL parser over, steps statements, draws at
random and reads the command line.

What is not proved is what is taken from outside: `str::to_lowercase`,
`str::to_uppercase`, `String::push`, `{:?}` of a list of strings, `==` of the
names of the SQL parser, and the seeding of the ChaCha generator. Each stands in
a small function, or a declaration, that says what is relied on.
