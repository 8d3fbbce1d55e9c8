# tauri-plugin-thumbnail (verified core)

A Tauri plugin that produces file thumbnails, with its decision logic
verified by Verus.

- `src/` is the verified library: the request and response models, the
  thumbnail job as a state machine (`pipeline`), the runner for multi-step
  plans such as Quick Look, `sips`, `ffmpeg` and `pdftoppm` runs or the
  Freedesktop cache lookup (`runner`, `plans`), file-type recognition
  (`media`), the size-keeping image steps (`imaging`), which every handed-out
  thumbnail passes through, native ones included, so that it is PNG data of
  at most 200 KiB, cache-name hashing and the
  XDG cache directory (`hashing`), the `Thumb::URI`/`Thumb::MTime` check that
  a cached Freedesktop thumbnail is current (`pngtext`), and path and string
  helpers (`text`). Calls into `image`,
  `infer`, `id3`, `md5` and `url` sit behind small trusted wrappers whose
  contracts name their results.
- `app/` is the plugin itself: Tauri registration and commands, serde copies
  of the models, and the file, process, environment and Windows shell work
  that the state machines ask for.
- `tests/` runs the library on concrete inputs with the real outside crates.
