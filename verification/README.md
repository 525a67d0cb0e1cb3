# RoomMute

Real-time microphone noise cancellation for Windows, with its decisions proved.

A tray program records the microphone, cleans it, and renders the result into a
virtual audio cable that other programs select as their microphone. What can be
decided without the machine is a Verus library: which devices to use, how to
start them, when audio has stopped and when to try again, what the menu offers
and what a click does, what is remembered, and everything that is said to the
user.

## Layout

- `src/` is the library. Every item is verified.
  - `devices`, `device_laws`: the sound devices, their names, the ranking of
    microphones, the search for the cable.
  - `pipeline`, `pipeline_laws`, `ring`: the choice of devices, the order of
    starting, and the path of a frame through the two rings.
  - `watchdog`: noticing that audio stopped, pacing the attempts to restart it,
    and keeping the log readable.
  - `menu`, `tray`, `tray_laws`, `icon`: the tray.
  - `config`: the settings. `cli`, `startup`: a launch. `firstrun`, `error`: what
    is said. `autostart`, `logfile`, `resources`: the registry value, the log
    file, the meter. `text`: strings.
- `tests/` runs the library.
- `app/` is the program around it: threads, files, dialogs, the registry, the
  tray icon. It hands plain values to the library and does what comes back. The
  sound card is driven by the `audio_io` crate, the models are run by the `dsp`
  crate, and files and recordings are made by the `offline` crate, on Windows
  only.

## What is trusted

- `ring` states what the ring buffers of the `ringbuf` crate do: frames come out
  in the order and with the samples with which they went in; a frame that the
  reading half knows of comes out, and one for which the writing half knows of
  room goes in. How far the thread at the other end has come when a half looks is
  left open.
- `text` states what `String::push` does.

Times are nanoseconds of a monotonic clock; samples and the attenuation limit are
the bit patterns of single-precision numbers.
