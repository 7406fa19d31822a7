# cloud_satchel

The verified core of 云笈 (Cloud Satchel), a Windows desktop companion built on
Tauri: double-click the desktop to fade the icons, a transparent or auto-hiding
taskbar, an idle "privacy" sequence with a boss key, a performance monitor, a
media panel and an AI chat proxy.

## Layout

- `src/` — the library, written in Verus. Every decision the application makes
  (what a double-click does, which taskbar look is due, when the privacy
  sequence fires and what restoring undoes, how a hotkey string parses, how the
  streamed AI reply is cut into chunks, how the widget rows are planned) is an
  executable function with a `requires`/`ensures` contract proved by Verus.
  Laws that span several calls are public proof functions named `law_*`.
- `tests/` — ordinary Rust tests of the library on concrete values.
- `app/` — the Tauri shell: commands, tray, threads and the Win32 / COM /
  HTTP / file I/O. It hands plain values to the library and performs what the
  library decides. Floating-point work (audio spectrum, background settings)
  stays here.

## Trusted boundary

Calls into outside crates (`serde_json`, `base64`, `nvml-wrapper`, `sysinfo`)
and a few std functions go through small `#[verifier::external_body]`
wrappers whose contracts claim only what the crates document; where a result
cannot be stated in a few lines it is named by an uninterpreted spec function.
