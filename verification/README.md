# galaxy

A spiral-galaxy star-field generator. `src/` is the verified library: seed
derivation for the spiral arms and the core bulge (SplitMix64, proved to be a
bijection), the bucket grid that makes the minimum-distance test local, the
boolean star grid, the stopping rule of the placement passes, the terminal
density and braille views, the input handling of the interactive view, the
background layer (grid and axes) of the exported image, and the command-line
option lookup. `app/` is the program around it: the floating-point sampling
and scoring of candidate stars, the black hole and star drawing, file and
terminal I/O, and the JSON configuration.
