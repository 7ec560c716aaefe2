# ibdl_extractors

Post extraction for imageboard APIs (Danbooru, e621, Gelbooru, Moebooru),
written in Verus: every function of the library is checked against its
contract.

- `src/` is the verified library: post models and tag handling, the API
  formats of each imageboard and how they become posts, request URLs, the
  blacklist filter, server and user configuration, and the decisions of the
  downloads (full searches, tag downloads and pool downloads), which are
  written as step functions from a download's state and the page or post
  just fetched to what the caller does next.
- `src/hashing.rs` and `web::url_encode` are the only trusted items: thin
  wrappers over `ahash` collections and `urlencoding::encode`, whose
  contracts state what those crates do.
- `app/` holds what the library leaves to ordinary Rust: HTTP requests with
  `reqwest`, the `tokio` loops that drive the step functions, JSON, TOML and
  bincode through `serde`, and the browser entry points.
- `tests/` exercises the library on concrete values.
