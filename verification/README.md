# Spectrum

A media player that draws the audio spectrum over the video. It takes a local
path or an HTTP(S) address on the command line, or starts empty and takes either
by drag and drop.

- `src/` is the verified library: what the player decides and computes.
  - `analyser`: the history of samples, its windows, and their smoothed spectrum
  - `settings`: the spectrum settings and their sliders
  - `geometry`, `controls`: lengths on the screen, where the controls lie, and
    what a press or a drag does to them
  - `media`: pictures and audio between the decoder and the screen, seeks, pauses
  - `renderer`: sizes, the place of the picture, and what a frame is drawn from
  - `labels`: the labels of the settings panel and the fonts to try
  - `text`, `uri`, `wayland_drop`: addresses of media and lists of them
  - `application`: events of the window, and what is done about them
- `app/` is the program around it: the window, the GPU, the GStreamer pipeline,
  and floating point arithmetic, which the library takes as functions.
- `tests/` holds the tests of the library.

The library counts in whole numbers. Times are nanoseconds; parts of a whole,
such as a slider's position, are billionths; settings are counted in parts of
`SETTING_ONE`, scale factors in parts of `SCALE_ONE`, and positions in
`SUBPIXELS` to the pixel. Samples and decibel values are the bit patterns of
single precision numbers.

The program reads its shader from `spectrum.wgsl` in the working directory, or
from the file that `SPECTRUM_SHADER` names. `SPECTRUM_FONT` names the font of the
settings panel, and with `SPECTRUM_STATS` set the program prints its throughput
once a second.
