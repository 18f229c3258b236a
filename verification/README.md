# iced_video

A video player built with iced and gstreamer, whose decisions are verified with Verus.

- `src/` is the verified library: the clock text of the controls (`helpers`), the
  conversion of gstreamer tags to Rust tags (`tag_convert`), the player settings
  (`player_builder`, `video_settings`), the state kept beside a gstreamer pipeline
  (`player`), the bookkeeping of several players and their frames (`player_handler`,
  over `keyed_entries`), the keyboard bindings (`keypress`), the control bar
  (`controls`), the menu (`menu`) and the window style (`theme`).
- `app/` is the program around it: the gstreamer pipeline, the iced widgets and
  subscriptions, and the application loop that performs what the library decides.
- `tests/` runs the library on concrete values.
