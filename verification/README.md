# panorama

A viewer for Minecraft title-screen panoramas (`panorama_0.png` … `panorama_5.png`,
loose in a folder or inside a resource pack, zipped or not), drawn on the inside of
an OpenGL cube map, with a `stitch` mode that lays the six images out as one
sky-box cross.

- `src/` is the verified library: which image goes on which cube face, how the
  images are found and read from a folder or a zip pack, how a face is prepared
  (mirrored, or black when missing), how the cross is stitched, how a recording
  is set up (frame size, `ffmpeg` arguments) and how input events change the
  viewer's switches.
- `app/` is the program around it: the window, OpenGL, the floating-point camera,
  file access and the `ffmpeg` child process.
- `tests/` exercises the library on concrete inputs.
