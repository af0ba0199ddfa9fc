# pointercrate_demonlist

The rules of a Geometry Dash demonlist, verified with Verus: which records, demons,
players and videos the list accepts, how the record table stays consistent when a
record changes status, progress, holder or demon (approving a record assumes, as the
submission checks ensure, that no approved record of its pair has more progress), and
what the list's pages decide to show.

- `src/` is the verified library. The modules `consistency` and `submission` hold the
  plans for changing the record table and the laws that they keep it consistent;
  `video` checks and normalises video links; `gd` stores level data as numbers;
  `pages` holds the decisions behind the pages; the other modules model the list's
  entities and their errors.
- `tests/` runs the library on concrete values.
- `app/` is the unverified edge: JSON forms of requests, times, configuration from the
  environment, and the database work that carries out the library's plans.
