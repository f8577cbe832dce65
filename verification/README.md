# Focus Noise

A small offline noise player (white and brown noise, play / pause / stop,
fades, volume, balance, Japanese and English labels, settings saved
automatically).

- `src/` is the verified library:
  - `model.rs`: the noise kinds, playback states and interface languages;
  - `localization.rs`: every label in both languages, with proofs that labels
    within a language are distinct and non-empty;
  - `settings.rs`: the saved settings, their first-run values and what a
    load yields;
  - `schedule.rs`: the countdown that saves settings a fixed number of frames
    after the last change, with a proof that a change is saved exactly once;
  - `transport.rs`: what each control and each rendered frame does to the
    playback state, with the laws that connect them.
- `app/` is the desktop program around it: the window, the audio stream and
  its floating-point samples, and the settings file.
