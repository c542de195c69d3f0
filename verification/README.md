# edit_cookie_malaccamax

A browser extension for editing cookies, built around a verified library.

- `src/` is the library, verified with Verus: the cookie model, the filter and
  protection rules, the cookie-age limit, the popup's search, filtering and
  sorting, the export formats, the stored-preference checks, the user's
  cookie descriptions, and the decisions of the background worker (what to
  restore, remove or shorten when a cookie changes). `src/laws.rs` states the
  properties that span several functions.
- `tests/` runs the library on concrete values.
- `app/` is the extension itself: Chrome API bindings, storage through
  `chrome.storage.local`, the Leptos popup, options page and DevTools panel,
  and the background event handlers. It reads and writes, and asks the
  library what to do.

Copy formats: JSON writes one compact object (`{"name":"session","value":"abc123",...}`),
Netscape writes one tab-separated cookie-file line, and semicolon pairs write
`name=value`.
