# plinth_plugin

The verified core of a cross-format audio plugin framework (CLAP, VST3, Audio Unit v3
and standalone). `src/` holds the decisions each front end takes, written in Verus with
contracts over plain values: event timing and signal splitting, parameter change
bookkeeping between editor, host and processor, automation queue ordering, bus and
unit descriptions, stream transfer loops, block planning, MIDI parsing and audio block
chunking. `app/` is the ordinary Rust around it: host streams, ring buffers between
threads, floating-point scaling and conversions to the types of outside crates.
`tests/` runs the library on concrete values.
