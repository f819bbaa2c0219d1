# wikijs

API bindings, a command-line client and a FUSE file system for Wiki.js.

## Layout

- `src/` is the library, verified with Verus:
  - one module per group of GraphQL endpoints (`page`, `user`, `asset`, ...)
    with the data model of the API, the error type of its endpoints and, for
    each query, the function that reads the server's answer; its contract says
    which value or which error each answer gives;
  - `common` holds the classification of server errors shared by all
    endpoints;
  - `fuse` holds the logic of the file system: inode numbers, directory
    listings, lookups, reads and writes of page contents, and the page cache;
  - `cli` holds the tables that the client prints and the small decisions it
    takes on its arguments.
- `app/` is the program around the library: it sends the requests over HTTP,
  turns JSON into the library's types, parses the command line, prints the
  tables and serves the FUSE requests. Started under the name `wikijs-fuse` it
  mounts a wiki, otherwise it is the command-line client.
- `tests/` runs the library on concrete answers.
