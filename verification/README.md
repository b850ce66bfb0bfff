# ringrtc (iOS call manager interface)

The C entry points through which the iOS application drives the call manager,
split in two:

- `src/` is the verified library. `byte_slice` decodes the text the application
  passes as bytes (`decode_text`, over `std::str::from_utf8`); `ice_candidate`
  turns the application's ICE candidate into the call manager's; `request` holds
  `dispatch`, which decides for each entry point what to ask of the call manager
  or whether to turn the call down, and `reply`, which derives from the call
  manager's answer the address handed back; `app_object` is the address of an
  application object; `laws` states what holds across these functions.
- `app/` holds the `extern "C"` entry points and the `#[repr(C)]` structures the
  application passes. Each entry point copies what it was given into plain
  values, calls `dispatch`, asks the call manager (the `ios::call_manager`
  module of the enclosing crate), and hands back what `reply` gives.

`app/` is meant to be spliced into that enclosing crate, at `ios::api`: its
`crate::` paths (`common`, `ios::call_manager`, `ios::ios_util`,
`ios::logging`, `webrtc::ice_candidate`) name that crate's own modules, which
are not part of this repository, so on its own `app/` does not resolve them.
When an ICE candidate is turned down, the entry point logs the warning the
library's `turn_down_warning` gives.
