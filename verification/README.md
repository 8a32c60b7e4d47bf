# sympho

A small music player whose decisions are proved with Verus.

- `src/media.rs`: a track (its path and tags), which file types carry tags,
  and the labels the window shows for a track.
- `src/library.rs`: the play queue of a folder tree: the files of a supported
  type, in the order the folders were listed.
- `src/player.rs`: the order of tracks in a queue and a controller that
  answers the window's controls (play/pause, choosing a file, a folder or a
  track, seeking, moving on when a track ends).
- `src/decode.rs`: which track of an audio stream to decode and what to do with
  each packet read and each buffer decoded.
- `app/`: the program around the library: the window, the file dialogs, the
  disk, the audio output and the decoder, none of which is verified.
