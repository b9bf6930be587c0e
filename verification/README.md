# clitrix

A terminal Matrix chat client. The library (`src/`) holds the client's
logic with contracts proved by Verus; the program (`app/`) reads the
keyboard, talks to the network and the settings file, and draws the
library's views with ratatui.

## Layout of the library

- `text` — UTF-8 byte offsets over a string's characters, decimal
  rendering, searching, trimming.
- `ui::input_handler` — the line editor shared by every input field (byte
  cursor, Emacs-style keys, word motion) and a multi-field form holder.
- `ui::text_input` — the input box's view: value, caret, placeholder,
  password masking; `basic` is the simpler box with a character cursor.
- `ui::wrap` — greedy word wrapping to a width in bytes.
- `ui::styled`, `ui::layout` — styled lines and screen areas, the
  vocabulary of the views.
- `ui::components` — the message list, room list and composer views and
  their scrolling and selection state.
- `app` — the login form, the profile and the application state.
- `screens` — the login, homeserver selection, demonstration chat,
  room-and-chat and session screens: what each key does and what each
  screen shows. Where a key needs the network, the screen returns a
  command and takes the outcome back.
- `data` — users, rooms, messages, reactions and typing state, and a
  simulated Matrix service.
- `matrix_service`, `models` — the connection settings of a real session
  and the address checks made before the network is asked.
- `clock` — the system clock and time rendering.
