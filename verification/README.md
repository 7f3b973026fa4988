# cour

`cour` is a local-first mail client: it indexes Maildir folders into SQLite,
threads the messages, works out which threads wait on you, drafts replies,
and offers a terminal interface and a command line over the index.

## Layout

- `src/` is the library, written in Verus. Each function states what it does
  in `requires`/`ensures` contracts over mathematical models (`Seq`, `Map`,
  views of the data types), and Verus proves the code against them. It holds
  the threading rules, message parsing on top of `mail_parser`, the thread
  state rules, the JSON list columns, the draft lifecycle, the ingest and
  enrichment decisions, change debouncing, configuration and path rules, the
  text of every command's output, the setup wizard, and the state and layout
  of every screen of the terminal interface. Public `proof fn`s named `law_*`
  state properties that span several functions.
- `tests/` runs the library on concrete values.
- `app/` is the program around the library: command-line parsing, reading
  files and the environment, the SQLite queries, the AI providers over HTTP,
  the terminal, and the floating-point scoring of search results.

Run the program with `cour --help`; with no configuration it starts the setup
wizard, which `cour setup` reruns.
