# pip_clip

The verified core of a clipboard preview tool: a translucent overlay shows
what is on the clipboard, and a safe-paste shortcut asks for confirmation
before pasting.

- `src/` is the library, verified with Verus:
  - `fingerprint` — `DefaultHasher` fingerprints of clipboard text and of
    clipboard images (size plus at most 127 evenly spaced bytes);
  - `preview` — shortening text at a byte limit without cutting a character,
    and the `Image (W×H)` label;
  - `thumbnail` — PNG thumbnails as `data:` URLs, with the `image` and
    `base64` crates behind the trusted items of `codec`;
  - `payload` — the payloads sent to the overlay;
  - `monitor` — the clipboard monitor: when to look, and what counts as new;
  - `controls` — tray menu, safe-paste shortcut and the paste keystrokes.
- `app/` is the Tauri program around it: clipboard access (arboard),
  keystroke injection (enigo), tray, global shortcut, windows.
- `tests/` runs the library on concrete values.
