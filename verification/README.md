# camera_ftp_companion

The core of a camera FTP companion: an FTP(S) server that receives photos from a camera,
indexes them, previews them, and optionally sends them for AI editing or color grading.
The library holds the decisions and data handling of the application, each with a
contract proved by Verus; `app/` holds what touches files, the network, async runtimes
and floating point, and calls the library for everything it decides.

## Layout

- `src/` — the verified library
  - `text`, `paths`, `net`, `uri` — character-level helpers, file names and extensions,
    dotted-quad addresses and ports, percent-decoding of preview URIs
  - `image_utils`, `jpeg`, `image_preview`, `lut_cube` — RAW/JPEG detection, EXIF
    orientation segments, locating embedded JPEG previews, the preview cache, the line
    structure of `.cube` LUT files
  - `mediastore`, `mediastore_paths`, `mediastore_listing`, `mediastore_lookup` — the
    Android MediaStore storage backend: file classes, path rules, directory listings and
    lookups
  - `file_index` — the index of received images, newest first, and the watcher's events
  - `config`, `error` — settings, their defaults and validation; the error type
  - `ftp_types`, `ftp_events`, `ftp_server`, `ftp_sessions`, `tls_policy` — server state,
    statistics, event fan-out, start/stop lifecycle, logins, certificate renewal
  - `ai_edit`, `color_grading`, `auto_open`, `exif_info`, `codec` — AI edit bookkeeping and
    requests, presets and preview sessions, how received images are opened, EXIF fields,
    base64
- `tests/` — tests of the library
- `app/` — the application around it (configuration files, runtime state, event bus,
  directory scan, MediaStore bridge stand-in, workers, LUT number parsing)
