# rs_easy_installer

The decision logic of a Windows helper that installs Rust with the MSVC
toolchain, written in Verus and verified.

The installer runs `rustup`, `rustc` and PowerShell, asks the user what to do
about an existing installation, downloads and installs the Visual C++
redistributable and rustup, and puts Cargo on the user `PATH`. Everything it
decides along the way lives in `src/` with a contract:

- `status`: reading an existing installation from `rustup --version`,
  `rustup show` and `rustc --version`.
- `decision`: the question to ask, and what the answer decides.
- `toolchain`: repair, target and override decisions, rustup installer checks.
- `redist`: the registry listing of redistributables and the three install
  attempts, tried in order until one succeeds.
- `scripts` and `commands`: the paths, PowerShell scripts and command lines.
- `report`: the lines shown after installing.
- `process`: the order of the steps; the first failure ends the process.
- `text`, `command`, `error`: trimming, substring search and line splitting
  over character sequences; command outcomes; error messages.

`app/` is the program around it: it runs the commands, reads the user's
answers, touches the file system and prints. `tests/` runs the library.
