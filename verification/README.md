# wgpu-executor

Draws vector scenes with a GPU. The library in `src/` decides what a frame does; it is verified
with Verus and never touches the GPU. A driver in `app/` performs what the library decides with
`wgpu` and `vello`.

A frame is a `RenderJob`. It names one `Command` at a time; the driver performs it and answers
with an `Event`. What a frame does from end to end is a sequence of commands that the request, the
target texture that a surface keeps and the adapter's capabilities decide: `job::program`.

- `geometry`, `descriptor`, `pipeline`: the plain values that commands carry.
- `upload`: numbers as bytes.
- `command`, `job`: the commands, and the frames that are made of them.
- `surface`, `executor`: how surfaces and executors come about.
- `device`, `laws`: a model of the GPU, and what holds of every frame on it: that each command
  finds what it needs, what a finished and a failed frame leave behind, which textures stand for
  images while a scene is drawn, when a target texture is used again.
- `concurrency`: frames that are drawn at the same time, and what their locks keep apart.
