# pglsp

The parsing and document core of a Postgres language server, verified with
Verus.

- `src/` is the verified library:
  - `lexer`: merges the tokens of the Postgres scanner with the whitespace
    between them;
  - `parser`: the parser state (cursor, token buffers, tree edits, errors);
  - `message`: the text of the parser's error messages, as `Debug` prints
    kinds and tokens;
  - `location`, `nested`: deriving the location of a syntax tree node from
    regex matches, and walking a syntax tree breadth first into its nodes
    with their depths, paths and locations, ordered by location;
  - `node_range`: the ranges nodes span, from their locations, their
    children and their own tokens;
  - `statement_start`, `statement`, `source`: the table of statement starts,
    the range of tokens a statement spans, and finding the statements of a
    text;
  - `document`, `change`: documents with their statement ranges, and applying
    text changes to them;
  - `syntax_kind`, `sibling_token`, `statement_lexer`, `statement_parser`,
    `source_file`, `query_node`: token kinds and the small lexing helpers;
  - `analyse`, `cli`, `commands`: rule filters and the rule registry, the
    command line's flag decisions, and statement commands;
  - `text`, `strings`, `path`: offsets and ranges, UTF-8 slicing, file paths.
- `app/` holds what stands around it: the Postgres scanner and parser,
  building the syntax tree, the regex lexers, and running statements against
  a database.
- `tests/` runs the library on concrete inputs.
