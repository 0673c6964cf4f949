# machenike

Keyboard backlight tools for MACHENIKE laptops (3-zone RGB keyboard driven
through the `\_SB.PC00.LPCB.EC.ECMD` ACPI method), as a library whose logic
is proved with Verus, and a thin program around it.

`src/` holds the library:

- `text`, `decimal`: characters, trimming, splitting, replacing, lowercase,
  and decimal numbers read and written as `str::parse` and `Display` do.
- `keys`, `combo`: key codes, key names and hotkey text such as
  `ctrl+alt+slash`; reading the text of a hotkey gives the hotkey back.
- `conf`, `settings`: the `key=value` configuration file; writing the
  settings and reading the file gives the same settings.
- `capture`: recording a hotkey from the keyboard.
- `daemon`: which events trigger which hotkey, the RGB scroll colors, and how
  the daemon reads the file that the menu writes.
- `backlight`: the saved backlight state, palette, brightness and on/off
  rules, the ACPI calls for each zone, and the command line.

`app/` does the I/O: files, `/dev/input`, threads, `systemctl`, the terminal
menu. The executable runs as `machenike-kbdctl`, `machenike-hotkeysd` or
`machenike-config` according to the name it is called under.
