# nchan

The logic of a small imageboard, verified with Verus.

- `src/` is the library: the markup of every page and fragment (with user
  text escaped), the rules for new posts and replies (image names, where the
  browser is sent afterwards), the paging of boards and replies, and the
  records the site keeps.
- `app/` is the web server around it: routes, the database (welds), the
  settings file and uploaded files.
- `tests/` runs the library on concrete values.
