# systemdfilegenerator

A terminal wizard that turns a compiled binary into an installed service:
it derives `/opt/<app_name>/<binary_name>` from the path of the binary,
lets the user edit the service settings with a live preview of the systemd
unit file or OpenRC init script, and saves the file locally or deploys it
system-wide.

## Layout

- `src/` is the library, verified with Verus:
  - `text.rs`: whitespace trimming, splitting, prefix/suffix/infix tests and
    string conversions over characters;
  - `picker.rs`: cleaning the typed path, `~` expansion, path components,
    build-directory detection and the derived installation paths;
  - `device.rs`: init systems and what is known of the target machine;
  - `generator.rs`, `openrc.rs`, `systemd.rs`: the service configuration and
    the files rendered from it;
  - `deploy.rs`: system-wide deployment as a state machine whose actions
    (commands, file writes, existence checks) the caller performs;
  - `app.rs`: the wizard's state, the meaning of each key (`handle_key`)
    and the reaction to it;
  - `screens.rs`: the badges, labels, titles and key hints each screen shows.
- `app/` is the program around it: terminal set-up, drawing with ratatui,
  turning crossterm key events into `KeyPress` values, machine probing with
  sysinfo, checking whether the source binary exists, and performing
  the actions the library asks for.
- `tests/` runs the library on concrete inputs.
