# resonance_bhop

A controller-assist bridge for Windows: it reads a physical controller
(DualSense, DualShock 4, Switch Pro or a generic HID gamepad), helps the
timing of movement around a jump, and feeds the result to a virtual Xbox 360
pad.

- `src/` is the library, verified with Verus: the assist state machine
  (`assist`), per-device calibration (`calibration`), device identification
  and the DualSense / Switch Pro report layouts (`dualsense`), gamepad
  layouts read from HID report descriptors (`generic_hid`), device ordering
  and the choice of the input device (`selection`), XInput state mapping
  (`xinput`), the virtual pad's report (`x360`), environment checks
  (`diagnostics`), the bridge's decisions (`runtime`) and user preferences
  (`preferences`).
- `app/` is the program around it: the window, the bridge thread, device
  I/O through hidapi, ViGEmBus and XInput, and the settings file.
- `tests/` exercise the library on concrete values.
