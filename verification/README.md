# counterfire2

The logic of CounterFire 2, a Windows desktop tool that plays CrossFire-style
kill sounds and kill badges over Counter-Strike 2, as a library verified with
Verus, with the program around it in `app/`.

`src/` (verified):

- `gsi` — recognising the local player's kills in CS2 game state reports:
  the local account, first sightings as the baseline, duplicate reports of one
  kill, kills to ignore after the spectated player changes, new rounds, and
  kill streaks within the reset time.
- `effects` — which effect a kill shows (knife, grenade, headshot, multi-kill)
  and the effect's lifetime on screen.
- `config` — run mode, side choice, canvas size limits and the command line.
- `runtime` — the demo's sample kills.
- `assets` — the image catalog and the sound file names.
- `overlay` — canvas size, what each frame keeps on screen, and the command
  stream written to shared memory.
- `events`, `engine`, `audio`, `clock`, `random`, `text` — status events,
  launch settings, the sound slot count, time, chance and text helpers.

`app/` holds the window (tauri), the game state listener, the overlay
connection, sound output and the settings file.
