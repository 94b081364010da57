# i_am_legend

The decision logic of Robert Neville, a robot that survives in a tile world
full of zombies: he explores with his dog Sam, drinks water, eats at markets,
and flees to shelters when a zombie comes near. The library is verified with
Verus; the program around it (world, window, sounds, report server) is in
`app/`.

- `types`: directions, tile contents, actions, Robert's status and memory.
- `position_set`: sets of map positions without repetitions.
- `grid`: what Robert sees around him and what he remembers of it.
- `exploration`: maps prepared for routes, the zone to explore, whether
  known zombies block the way.
- `random`: random directions (through `rand`).
- `planner`: the choice of the next action, as a state machine that asks the
  program for the outside answers it needs (closest resources, weather,
  paths, compass moves).
- `tick`: carrying out an action and taking its outcome; ageing.
- `rocket_data`, `text`: run statistics and their texts.
- `laws`: properties of the library as a whole, proved.
