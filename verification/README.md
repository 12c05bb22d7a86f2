# embassy_daq

Verified core of the firmware for an STM32F413 data-acquisition board
(Mikroe Uni-Clicker with a Load Cell 4 click and a 9DOF 3 click, reporting
over CAN to a Raspberry Pi).

- `src/` — the library, verified with Verus:
  - `bytes`: big-endian `u16` ⇄ two bytes;
  - `bridge`: the ZSC31014 bridge configuration register (unpack / pack);
  - `sensor`: the ZSC31014 commands, measurement decoding and the EEPROM
    write that sets the preamp gain;
  - `can_frame`: standard-id CAN data frames, checked with `bxcan`;
  - `load_cell`, `echo`, `button`, `accel`: the decisions of the four
    firmware programs, as functions and state machines.
- `app/` — the embassy firmware that drives the peripherals and asks the
  library what to do. It targets `thumbv7em-none-eabihf` and needs the
  embassy crates, which are not dependencies of the library.
- `tests/` — tests of the library on concrete values.
