# image_resize

An image upload service: clients upload JPEG, PNG or WebP images, which are
turned upright, shrunk to fit a requested box, stored as lossless WebP in an
S3-compatible object store (Cloudflare R2) and served for twelve hours. A
`cleanup` run removes expired images.

The rules of the service are a library verified with Verus (`src/`):

- `upload` – query limits, the file field, error answers, object keys,
  public URLs, expiry and the stored record;
- `image_processing` – format detection, decoding, EXIF orientation, the
  exact resize rule `min(max_w / w, max_h / h, 1)` and WebP encoding;
- `fetch` – when a stored image may be served and what each lookup answers;
- `cleanup` – the state of a cleanup run and its report;
- `ui` – the fingerprinted script address and the rendered index page;
- `config`, `command` – settings from the environment and the command line;
- `timestamp` – UTC instants and their RFC 3339 text;
- `error`, `r2`, `db` – error answers, store errors, table rows;
- `text` – verified string helpers.

Calls into the `time`, `image`, `kamadak-exif`, `sha2` and `ulid` crates
stand behind small trusted functions whose contracts say what those crates
do; everything else in `src/` is proved.

`app/` is the program around the library: the axum HTTP server, SQLite
access, R2 requests, the environment and the file system.
