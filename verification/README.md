# cosmic_climber

The rules of Cosmic Climber, a vertical platformer, as a verified library, with the
macroquad program around it.

- `src/` (verified with Verus): the kinds of platforms, enemies and power-ups
  (`kinds`); weighted platform generation and the other random rolls (`generation`,
  drawing from macroquad's generator in `rng`); the astronaut's counters and flags —
  lives, invincibility, jetpack fuel, gun cooldown, animation, star trail (`player`);
  platform state — crumbling, vanishing after a touch, landing, lava, power-up pickup
  (`platform`); enemies, bullets and
  kill bonuses (`combat`); what each level generates —
  platform kinds, widths, enemies (`levels`); and the run's bookkeeping — pause/menu control, score, levels,
  checkpoint (`progress`). Each module states its timing laws as proof functions.
- `app/`: the window, input, floating-point physics, camera and drawing, which call the
  library for every decision on counters and flags.
- `tests/`: concrete checks of the rules and laws.
