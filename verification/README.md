# bevy_ios_toolkit

Native iOS integrations for Bevy (StoreKit, AdMob + UMP consent, App Tracking
Transparency, Game Center, local notifications, platform state), with their
decision logic written in Verus and proved against its contracts.

## Layout

- `src/` is the verified library. Each integration keeps its wire mappings,
  its per-frame decisions (what to send to the native bridge, how to project
  what it reports back, which messages to announce) and its desktop fake as
  plain functions with `requires`/`ensures`. The properties the integrations
  promise as a whole (an environment request starts resolution once, a failed
  entitlement refresh keeps the last verified ownership, a notification id
  replaces rather than stacks, production ads ignore UMP debug overrides, and
  so on) are public proof functions beside the code they speak of.
  `src/text.rs` holds the small string routines the rest needs: trimming,
  splitting, case folding, decimal parsing, and the check that text can cross
  a C boundary.
- `app/` is the Bevy side: the plugins, resources and messages, the `extern
  "C"` bridge, JSON decoding of the bridge's payloads, environment-driven
  settings for the fakes, and everything that works in floating point (safe
  area insets, achievement percentages). Its systems read the bridge, call
  the library's decision functions, and act on what they return.
- `tests/` runs the library on concrete values, including the flows the
  fakes let you exercise on a desktop.
