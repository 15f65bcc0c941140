# mast_remarkable

A clock, weather and home-control dashboard for the reMarkable e-ink tablet.

- `src/` is the verified library: decimal text and string searches
  (`text`), the clock panel and its per-minute decisions (`clock`), the
  weather panels' tables, texts and layout (`weather`), the wifi indicator
  (`wifi`), the smart-device tiles (`control`), the battery indicator
  (`battery`) and the home server's reply envelope (`common`).
- `app/` is the program around it: screen drawing, HTTP requests, the radio
  tools and the clock loop.
- `tests/` exercises the library on concrete values.

Icons are read at run time from `/home/root/mast/icon`.
