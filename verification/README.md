# blockworld

The rules of a small voxel sandbox game, written in Verus and proved
against their specifications.

`src/` is the library. Every function in it carries a `requires`/`ensures`
contract that Verus checks, and the properties that tie several functions
together are stated as public proof functions.

| module      | what it decides |
|-------------|-----------------|
| `block`     | block kinds and their classes: solid, transparent, slab, stairs, food, texture layers |
| `mesh`      | face masks of a chunk layer, greedy merging of faces into rectangles, slab faces, chunks to re-mesh, index lists |
| `atlas`     | the pixels of the interface atlas: slot frames, panel pieces and the bitmap font |
| `lighting`  | which blocks give point lights and which of them the light table keeps |
| `inventory` | the nine-slot hotbar, stacking, chest transfers, spilling on death |
| `hud`       | what each hotbar slot draws, stack counts as digits, overlay index lists |
| `entity`    | animal and mob kinds, what spawns in which biome, where in a column it spawns |
| `ai`        | the behaviour state machines of villagers, animals and hostile mobs |
| `player`    | the targeted block, block placement, the respawn search, movement keys, sound events |
| `session`   | loading stages, the Escape, use and attack keys, the placement preview |
| `audio`     | music track changes, the shape of block sounds, sample mixing |
| `particle`  | burst sizes and the particle cap |
| `random`    | the one call into `rand` that the chance decisions draw their rolls from |

`app/` is ordinary Rust around the library: the floating-point side of the
game (bodies moving under gravity, particles, sound synthesis, view rays and
matrices) and a headless demonstration over a flat test world. Verus does not
read it.

`tests/` runs the library on concrete cases.
