# profile-materials

The profile service behind the ItzHerzchen GitHub profile: it follows a Discord
presence through an official bot, keeps the last known presence, reads Spotify
playback and GitHub statistics, and serves them as JSON, server-sent events and SVG
cards.

## Layout

- `src/` is the library, verified with Verus. It holds the presence state machine
  (revisions, freshness, last-known-good restore), the public presence model and
  activity selection, the Spotify collector's steps and debounce, the Discord identity
  rules, artwork URL policy, accepted artwork and data URIs, the GitHub reply reading,
  contribution calendar, streaks, project and language selection, the GitHub snapshot
  store with its revision rule, the HTML calendar parser, configuration parsing, and
  these SVG outputs with their entity tags: the realtime presence, Spotify and hero
  cards, both presence-card designs (header, activity panels with artwork or initials,
  texts, metadata rows and progress bars, grid and empty states), the combined GitHub
  card, the statistics, languages and contribution-streak cards (the last with its
  campfire), and the cards shown without a snapshot. Public functions state their results in `ensures`,
  except the clock read, whose time is not stated; laws that span several functions
  stand as public proof functions named `law_*`.
- Which artwork URLs a presence-card panel shows is handed to the card renderers by
  their caller. Text fitting and progress bars are measured in whole units. The streak
  card takes its figures as `StreakFacts` (counts, date ranges and today's
  contributions) and its two mascot images as bytes.
- `tests/` exercises the library on concrete values.
- `app/` is the service around the library: environment and start-up, the Discord
  Gateway connection, HTTP routes, file persistence, the network clients for artwork,
  Spotify and GitHub, and the floating-point parts of the GitHub statistics: language
  shares and their figures in hundredths (which the languages card takes), the rank
  and its percentile in tenths (which the statistics card takes), and compact counts.
