# rradio

An internet radio for a Raspberry Pi with a 4 x 20 character LCD screen, played from a
keyboard: streams, podcasts, memory sticks, Samba shares and CDs.

- `src/` is the library, written in Verus. It holds the logic: reading the configuration and
  channel files, choosing the next or previous track, the text on each line of the screen and
  its scrolling, the network, Wi-Fi and ping state, the keyboard's commands, and the reports.
  Each function states what it returns in its contract, and Verus proves it.
- `app/` is the program around it: the main loop, GStreamer, the LCD device, the keyboard,
  mounting media, running `ping`, `nmcli` and `smbclient`, and reading and writing files.
- `tests/` runs the library on concrete inputs.
