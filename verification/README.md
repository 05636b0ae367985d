# usb_msc_host

The host side of USB mass storage: SCSI commands over bulk endpoints, for a microcontroller that reads
the blocks of a USB stick.

The library decides, and whoever calls it transfers. Taking a device into service, bringing it up and
every command are small state machines: `action()` says what to do next, and `advance()` takes what
came of it. Their contracts, and the laws that follow from them, are proved with Verus.

- `src/msc.rs`: finding the interface and the endpoints of a device, and taking it into service
- `src/storage.rs`: the commands, transfer by transfer
- `src/sdmmc.rs`: the device as an array of blocks
- `src/wire.rs`: the bytes of commands and answers, laid out and read by the `scsi` crate
- `src/descriptor.rs`: the descriptors, taken apart by the `embassy-usb-host` crate
- `src/block.rs`, `src/fault.rs`, `src/timesource.rs`: blocks, conditions that end the program, a clock
- `src/laws.rs`: what holds of the library as a whole
- `app/`: a program for an RP2040 board that prints a file from a stick

A `Fault` is a condition after which the program must not go on. `app/` panics then.
