# arweave_host

A web host whose pages are kept on Arweave. A request with the right key names a
ZIP archive there; the host fetches it, unpacks it, compresses every file ahead of
time with brotli and gzip, and serves the files from memory until the next update.

* `src/` is the library, verified with Verus: unpacking (`archive`), the choice of
  a reply (`serve`, `reply`), media types (`mime`), counting visits (`visits`), the
  course of an update (`update`), fetching a folder by its manifest (`ar`), what
  the host tells about itself (`server`) and how it starts (`startup`). `laws`
  holds what spans several of these. What other crates do is stated, not proved,
  in `codec` (zip, brotli, flate2) and `json` (serde_json), and in a few
  functions of `clock` (chrono) and `gateway` (http).
* `app/` is the program around it: routes, network, files, clocks and locks.
* `tests/` runs the library with the real crates.

The program needs `API_KEY` in its environment or in a `.env` file. It serves HTTPS
on port 8443 with the certificate at `TLS_CERT_PATH` (`./cert.pem`) and the key at
`TLS_KEY_PATH` (`./key.pem`), and plain HTTP on port 3000 where it
cannot load them.
