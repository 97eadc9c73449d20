# mudae_sniper

A Discord self-bot that plays the Mudae card game: it rolls cards on a schedule,
claims `$daily` and `$dk`, presses kakera buttons when the reaction power allows, and
claims rolled cards worth more than a threshold.

- `src/` is the library, verified with Verus: reading the bot's `$tu`, `$k` and loot
  messages, the badge and kakera rules, the sniper's state and the decisions of the
  event handler and the step functions of the setting up and of the timed tasks (each
  from state and event to the next state and action).
- `app/` is the program around it: configuration loading, the clock, the Discord
  connection, the command scheduler, HTTP interactions, logging, and the loops that
  perform what the step functions decide.
- `tests/` exercises the library on concrete messages.

The regex engine (`regex`) and the clock (`std::time` with `chrono`) are called from the
library through two trusted wrappers in `src/utils.rs`.
