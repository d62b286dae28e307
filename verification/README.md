# peertube-viewer

A terminal browser for PeerTube: search videos and channels, list trending
videos, read comments, and hand a video to a player or a torrent client.

The decisions of the program live in a library whose contracts Verus proves:

- `parser`: the prompt's commands, ids and ranges;
- `config`: the configuration file, the command line and how they combine;
- `url_parser`: the addresses of videos and channels that the program opens;
- `history`: the videos already seen, saved and loaded as text;
- `preloadable_list`: pages of results fetched ahead of the reader;
- `api`: the requests made to an instance and what becomes of the answers;
- `helpers`, `dates`, `display`, `layout`, `input`: what the terminal shows;
- `cli`, `error`: what each command does and how each error is told.

`app/` holds the program around the library: the command line parser, the
network, the terminal, the editor of the prompt and the threads that fetch
ahead. It hands the library plain values and acts on what comes back.

The tests under `tests/` run the library on concrete values.
