# vx

A small convenience wrapper for XBPS, the package manager of Void Linux,
written in Verus.

- `src/` is the verified library: the command-line model (`cli`), the
  command lines handed to `xbps-install`, `xbps-remove`, `xbps-pkgdb`,
  `xbps-query` and `fzf` (`xbps`), the text handling they need (`text`),
  the properties proved across them (`laws`), and the few calls that ask
  the host system something (`host`).
- `app/` is the program: it parses the command line with clap, runs the
  commands the library describes, and prints what they return.
- `tests/` runs the library on concrete inputs.
