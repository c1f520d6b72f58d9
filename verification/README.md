# screen_recorder

The verified core of a desktop screen recorder and video editor that drives
ffmpeg. `src/` is checked by Verus; `app/` is the Tauri application around it.

- `text`: character-level operations (search, replace, split) with their
  meaning stated over `Seq<char>`.
- `progress`: the `h:m:s` fields of durations and of ffmpeg's progress lines.
- `edit`: the trim, edit and compress command lines, the choice of video
  filter, and the edit as a state machine from outcomes to next actions.
- `recording`: recording file names and the capture commands per platform.
- `audio`: the audio tool check, the device listing commands and the reading
  of the device to record from.
- `merge`: joining sound into video and appending recordings, as plans of
  steps run by a state machine.
- `stop`: stopping a recording, as a state machine.

Floating-point work (seconds and percentages) stays in `app/`.
