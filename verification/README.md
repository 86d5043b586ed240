# LG UltraGear RGB Control

A tray application for the LED strip of LG UltraGear monitors (27GN950, 38GN950,
38GL950G), in two parts:

- `src/`: a verified library. The HID protocol, the command bus and its worker,
  the image and audio sync sessions, screen sampling, the rules of the menu, the
  panel and the color picker, and the settings. Every function states in its
  contract what it returns or changes; what holds of several functions together
  stands beside them as public proof functions.
- `app/`: the application around it, for Windows. Files, HID writes, desktop and
  audio capture, windows, and color math in floating point.

The library's state machines (`usb::UsbWorker`, `image_sync::ImageSync`,
`audio_sync::AudioSync`, `capture::Grabber`, `menu::Tray`) decide what to do next
and the application does it: each step takes what happened and gives back an
action.

Single-precision numbers pass through the library as `factor::Factor`, a bit
pattern that it stores and compares; only the application computes with them.
