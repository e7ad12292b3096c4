# hlmv

A small home media server: it lists a media directory as an HTML page, plays
videos in the browser and remembers, per file, where playback stopped and at
which volume.

- `src/` is the verified library: file classification by extension,
  the localized messages, the directory listing order and the HTML of the
  browser and player pages, the decisions around thumbnails and the default
  icons, and the small decisions of the playback store.
- `app/` is the Rocket server around it: routes, file system access, the SQLite
  playback store, ffmpeg and image decoding and encoding. Page templates, the
  stylesheet and the icon pictures are read from `web/` and `assets/` beside
  the executable.
- `tests/` runs the library on concrete values.
