# aiwork_gateway

A gateway that serves the OpenAI and Anthropic chat protocols, image and video
generation and material uploads from a pool of upstream accounts, with quotas
and settlement kept by Core.

`src/` is a library whose behaviour is stated in contracts and proved with
Verus. What waits for the outside world is written as a state machine there: a
function from a state and an event to the next state and the next action.
`app/` performs the actions: sockets, files, the clock, the databases.

| part | modules |
| --- | --- |
| values | `text`, `json`, `table`, `outside` |
| answers | `reply`, `access`, `server` |
| chat | `text_request`, `text_chat`, `rotation`, `stream_chat`, `aggregate_chat` |
| video | `task_table`, `video`, `video_laws`, `video_request`, `video_events`, `video_billing`, `video_native`, `video_store`, `video_routes` |
| queue | `video_payload`, `video_worker`, `core_video`, `core_cancel` |
| material | `assets`, `asset_routes`, `trae_resource_upload`, `seedance_chat`, `seedance_routes`, `image_routes` |
| Core | `core_types`, `core_routes` |
| accounts | `account_directory`, `directory_sync`, `pool_routes`, `scheduler`, `upstream_observation`, `upstream_request` |

Calls into serde_json, sha2, base64, rand and url stand in `outside`; what is
claimed of them without proof is said there, call by call.
