# peer_web

The decision logic of the Peer Network web client, verified with Verus.

- `src/` is the library; Verus checks all of it. Its functions carry
  `requires`/`ensures` contracts, save the two wrappers that read the
  clock, of whose reading nothing is promised. They cover the
  registration and password rules, the
  forgot-password flow and its resend limit, the post-creation form, post
  reactions and comment paging, relative timestamps, the wallet's history
  paging and transfer checks, the shop checkout flow, and the response models
  of the Peer API. Laws that relate several operations (such as removing a
  tag that was just added restores the tag list) are public proof functions.
  - `text.rs` holds the string helpers the rules are written with (Unicode
    trimming, UTF-8 byte lengths, decimal rendering, substring search).
  - `models/` mirrors the API's types, `components/` and `pages/` hold the
    rules of each screen.
  - Calls into `chrono`, `serde_json`, `base64` and `rust_decimal` go through
    small trusted wrappers whose contracts are stated in their doc comments.
- `tests/` runs the library on concrete values.
- `app/` is ordinary Rust: the serde shapes of the API's JSON (converted to
  and from the library's types), the error type with its `Display` text,
  the advertisement records that hold floating-point amounts, and settings
  read from the environment.
