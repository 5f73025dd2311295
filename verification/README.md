# insh

A graphical, interactive, terminal environment: a file browser, a file finder, a searcher of the
contents of files, a way to make files and directories, and a chat with an inference engine, all
driven from the keyboard and backed by a daemon which does the reading of the disk.

## Layout

- `src/` is the library, verified with Verus: what each part of the screen does with what is
  typed and what the daemon answers (`browser`, `browse`, `finder_contents`, `finder`,
  `searcher_contents`, `searcher`, `file_creator`, `dir_bar`, `phrase`, `input`, `chat`,
  `transcript`, `history`, `history_searcher`, `ai`, and `insh`, which routes between them), how
  the lists are laid out (`listing`, `found_listing`, `hit_listing`, `footer`, `entry`), the
  command line (`args`), key bindings (`commands`), the configuration (`config`), the messages to
  the daemon and their framing (`requests`, `frame`), the searches kept between runs (`data`,
  `search_completer`), and the replies of the inference engine: their markdown read with
  pulldown-cmark and gathered into pieces to lay out (`markdown_read`), wrapped and laid out in
  lines (`wrapping`, `markdown`).
- `tests/` runs the library on concrete cases.
- `app/` is the program around it: the command line and configuration file read with clap and
  serde, the socket to the daemon, the programs the terminal is handed to, and the drawing of
  the screen with the terminal crates, which also say which characters are a cluster and how
  many columns each takes, the coloring of code, and what is asked of the disk (what a path is)
  for the library to decide on.
