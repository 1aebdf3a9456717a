# Chatstronomy

Chatstronomy tells chat rooms what an observatory does. It reads the event history, the image
history, the sequence and the equipment of a N.I.N.A. instance, follows what they say, and posts to
Discord and Matrix. Chat users with permission can send commands back.

`src/` is the library: every decision and every text, verified with Verus. `app/` is the runtime
around it: the pipe to N.I.N.A., the Matrix client, the settings file and the polling loop.

| Modules | What they hold |
|---|---|
| `text`, `digits`, `double`, `double_order`, `double_text`, `shortest_text`, `clock`, `calendar`, `json` | Values: strings, IEEE doubles, times, JSON |
| `event_types`, `events`, `event_decoding` | Events, their typed details, and how they are read |
| `updater_state`, `status`, `fingerprint` | What is known of a telescope, and its status text |
| `updater`, `laws` | Taking in histories, events, images and cycles; what holds of all of it |
| `sequence`, `operations`, `operation_messages` | Long operations of a sequence |
| `autofocus`, `autofocus_delivery` | Autofocus reports and their delivery |
| `event_messages`, `telescope_messages`, `lifecycle_messages`, `weather`, `console` | Texts |
| `event_rate_limit`, `event_elision`, `seen_set`, `backoff` | Floods, repetitions, waits |
| `chat`, `matrix`, `rig_resolver`, `camera_control` | Routing and permissions |
| `source`, `direct`, `api_types`, `error` | The data source and its protocol |

Details of switched-off events never reach the state or a message, no event or image is told of
twice while it is remembered, and commands need the owner's consent whatever chat permits: `laws`,
`rig_resolver` and the modules themselves state these and further properties as public proof
functions.
