# bevy_allinone

The discrete logic of a game-controller plugin for Bevy, written in Verus and
proved against its contracts.

- `src/` is the verified library: experience and levelling, event triggers
  and remote events, pause and player switching, dialog flow, grabbing and
  placing objects, melee chains, currencies, head tracking, footsteps, extra
  movement modes, input buffering, and the device state machines under
  `src/devices/` (doors, electronic devices, hologram doors, switches,
  pressure plates, recharger stations, examinable objects, camera moves and
  the player's device use). Entities travel through it as their `u64` bits.
  Each module ends with the laws it proves about its operations.
- `tests/` runs the library on concrete values.
- `app/` is the Bevy plugin around the library: components and resources
  that pair each library value with the floats the game keeps (speeds,
  timers, distances, amounts), the systems that read the world, call the
  library and apply what it decides, and serialisable copies of the
  configuration types.
