# fdt

A tool for Flutter projects. The library states what the terminal
interface does: the devices and emulators of the Flutter daemon, running and
steering apps, and the developer tools of a running app (widget trees,
frames, network requests, logs). The program in `app/` is a line-mode front
end: it prints the project's SDK version, launch configurations, schemes and
the devices and emulators it can run on.

`src/` is the library, verified with Verus:

- `text` — characters, trimming, splitting, decimals, joining.
- `xcode`, `gradle` — the schemes of the iOS and Android projects, read from
  `xcodebuild -list` and from the Gradle task list.
- `daemon` — the protocol of `flutter daemon` and `flutter run --machine`:
  message framing, requests, responses, events, and the run command line.
- `devtools` — the objects of the Dart VM service and of the Flutter
  service extensions, the parameters of the extension calls, and which
  answers and events the clients keep.
- `keymap`, `layout`, `navigation`, `network`, `frames`, `device_view`,
  `session_view`, `widget_tree`, `launch` — what each panel of the interface
  shows and does with a key press.

`tests/` runs the library on concrete values. `app/` is the program around
it: the command line, the processes and files it reads, and the JSON forms
of the protocol types.
