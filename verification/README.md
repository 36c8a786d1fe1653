# overlay_driver

The decision logic of an in-game overlay driver for Direct3D 11 games, verified with Verus.

`src/` is the library:

- `key_code` names virtual-key codes the way the overlay reports them;
- `utf16` decodes the UTF-16 unit of a `WM_CHAR` message;
- `input_event` is the event that the overlay sends to its server;
- `message_hook` decides, for each message the game takes from its queue, which event is sent
  and whether the message is swallowed;
- `client` holds the queue of messages received from the server;
- `overlay` holds the overlay's texture and applies server messages to it;
- `winuser` holds the Windows constants these read.

`app/` is the Windows side: the Direct3D hooks and drawing, the message hook itself, the socket
to the server, the debug console and the injector. It builds only for Windows.
