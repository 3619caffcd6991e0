# pokebot_agent

The decisions of an agent that plays a Game Boy Advance game from its video
picture and answers with controller input, written in Verus.

`src/` is the library. It holds no device, clock or file: every function goes
from plain values (what a frame showed, what is known of the game) to plain
values (what to press, what was learned), and its contract says which.

* **Seeing and pressing** – `observe`, `input`, `action`, `event`, `text`.
* **What is known** – `state`, `party`, `gamedata`, `world`, `belief_view`,
  `checkpoint`, `progress`, `paths`.
* **Running a task** – `executor`, `pending`, `task_run` (when an action is confirmed,
  stalled or over), `motion` (how long things take, and walking by dead
  reckoning).
* **Tasks** – `new_game`, `keyboard`, `save`, `console`, `bag`, `shop`, `learn`.
* **Walking** – `search` (breadth-first search), `route`, `nav`, `navigator`,
  `mart`.
* **Battles** – `battle`, `moves`, `catch`, `catch_odds`, `stock`.
* **Goals** – `goal` and `goal_loop` (plan, run, replan), `goal_session`
  (continue, restart), `scheduler` and `recovery` (what comes first, and the
  cheapest way to heal).

State machines are specified by a mathematical copy of their state (`NavV` for
`Navigator`, `LoopV` for `GoalLoop`): each method says that the state after it
is that of a specification function, and with what answer. Laws that hold across
methods are public proof functions beside them.

What needs a computation the library does not make (a path by A*, the odds of a
catch, a route's price) is asked for as a value and answered as a value.

`app/` is the rest: the loops that capture frames and press buttons, the files,
and the odds, which are floating point. `tests/` runs the library on concrete
screens.
