# lickbot2

A Minecraft bot that answers chat commands (`!goto`, `!stop`), follows and
fights players, and sorts its inventory.

- `src/` is the verified library (Verus): command parsing (`commands`, `number`,
  `text`), the choice of gear and the clicks that sort the inventory
  (`inventory`), the choice of weapon (`weapon`), the task stack (`task`), the
  decisions of following and fighting on each tick (`behavior`), and the log
  filter and version texts (`meta`).
- `app/` is the program around it: it talks to the game through azalea, turns
  what it reads into the library's values, and performs what the library decides.
- `tests/` runs the library on concrete values.
