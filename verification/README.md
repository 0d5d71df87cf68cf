# basic_ai_engine

A small feed-forward network engine for CUDA devices (a 5-3-3-2 network of
SwiGLU layers with RMS pre-normalisation), verified with Verus.

- `src/` is the verified library. It decides everything about the device work
  except performing it: the element count of every device buffer
  (`layer`, `network`), the launch plan of each kernel — shape and argument
  order (`launch`) — and the ordered device work of each forward step and of a
  whole pass over the ping-pong activation buffers (`forward`). `laws` proves
  how these fit together.
- `app/` is the program: it owns the CUDA context, allocates the buffers with
  the library's sizes, draws the random initial weights, and carries out the
  planned copies, products and kernel launches.
- `tests/` runs the library on concrete networks.
