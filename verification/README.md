# lyche

A memory-analysis tool for CS:GO, split into a verified library (`src/`,
checked with Verus) and a thin command-line driver (`app/`).

The library holds the logic that can be stated over integers and bytes:

- `offsets::findpattern` — textual byte signatures (`"8B 0D ? ? ? ?"`) and
  the search for their first occurrence in a module image;
- `offsets::scanner` — resolving a signature to an address (pointer chains,
  relative displacements, module base), and a store of dumped modules;
- `offsets::games::csgo` — module images, receive tables and netvar lookup;
- `gamedata` — which entity slots are read each frame and what the values
  read mean, which slots are shown, boxed or aimed at, player names, map and
  weapon changes;
- `human_interface` — the mouse emulator's serial commands and click timing;
- `features` — jump timing, overlay buffer location and box encoding;
- `datatypes`, `user_config`, `render`, `utils` — weapon and camera
  identifiers, configuration defaults, small numeric helpers.

The driver does the I/O: memflow access to the target machine, the serial
port, configuration files, and the geometry on fractional numbers.
