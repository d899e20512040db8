# card_game

A library for turn-based card games, written in Verus: the functions in `src/` carry
contracts that the verifier proves. One function is trusted rather than proved:
`map_keys::map_get_mut`, whose body is the single call `HashMap::get_mut`, for which the
verifier's standard library gives no specification; its contract states what std documents.

- `validation`: filters that check an input against a state before an action runs on it,
  chained conditions, and collections of candidate inputs.
- `stack`: the action stack (an inciting action with actions stacked on it), priority, and
  step-by-step resolution, last in first out; actions that wait for an input that fulfils
  their requirement.
- `identifications`: player, card and action identifiers, and identifiers checked by a filter;
  the player manager that passes the turn round.
- `cards`: cards, their builder, the actions each card may take, the listeners each card set up.
- `zones`: zones and slots of cards, and moving a card between them.
- `events`: events, their listeners, the actions they set off, and putting simultaneous
  actions on the stack in a chosen order.
- `context`, `commands`: a state with a history that records each action before it runs.
- `example`: a small game of characters that deal damage and heal, built on the stack.

`tests/` exercises the library; `app/` holds the example game's entry point.
