# grease

The rules behind the Georgia Tech Glee Club's member site, as a verified
Rust library: attendance and grades, events and their repetitions, answers
to events, gig requests, semesters, members and their registration,
permissions and the officer roles that grant them, carpools, fees, songs
and their links, password resets, the schedule of event reminders, the
webmaster's tools and the HTTP status of each error.

- `src/` is the library. Every function states what it returns in its
  contract, and Verus proves it; where the result rests on the clock, a
  random value or an outside crate's rendering, the contract says what is
  handed over and what holds of every outcome. The laws of the library (what stays true
  across calls) are public proof functions beside the code they speak of.
  The few calls into other crates (bcrypt, chrono, uuid, base64,
  icalendar, url, regex, time) stand behind small wrappers whose contracts
  say what is trusted of them.
- `tests/` runs the library on concrete cases.
- `app/` is a command-line front end: it reads and writes JSON, folds the
  grading rules into a floating-point grade, and runs the reminder loop.
