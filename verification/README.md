# matrix_account

Account logic of a Matrix client, verified with Verus.

- `src/` decides and computes: sessions, the background sync and what it tells the user interface,
  room lists, history, requests to rooms, media types and device verification. Each function states
  in its contract what it returns; the functions named `law_...` state what holds across functions.
- `app/` carries the decisions out with the Matrix SDK: network, store, files and background tasks.
- `tests/` runs the library on concrete values.
