# yourcloud_client

A storage node of the Project YourCloud distributed store, with its logic verified by Verus.

The library decides; the program around it performs. A task such as storing a chunk, handling a
command of the backend or keeping up the connection is a value that names, in its stage, the one
operation that comes next. The program performs that operation and resumes the task with the
outcome. So everything the node decides is a function with a contract, whatever files and networks
answer.

## Layout

- `src/` is the verified library.
  - `config`, `cli`, `setup`, `startup`: the configuration, the command line, the dialog that
    configures a node, and what must hold before a node starts.
  - `chunk_id`, `storage`, `disk`, `gib`, `path`: chunk identifiers, the chunk store, free disk
    space, amounts of storage and Unix paths.
  - `commands`, `network`, `json`: the commands of the backend, the connection to it, and the JSON
    of its authentication.
  - `webrtc`: transfers of chunks between peers.
  - `storage_client`: a node that registers itself and moves chunks over HTTP.
  - `storage_laws`, `command_laws`, `webrtc_laws`, `storage_client::laws`: what holds across
    operations, such as that a stored chunk reads back.
- `tests/` runs the library on concrete values.
- `app/` is the program: arguments, files, sockets, and the text of floating point numbers. Called
  as `yourcloud_storage_client` it runs the node of `storage_client`.

## Configuration

`Project_YourCloud/config.toml` in the user's configuration directory:

```toml
node_id = "your-node-id"
auth_token = "your-auth-token"
storage_path = "/path/to/storage/directory"
max_storage_gib = 40.0
ws_url = ""  # empty for the default backend
api_url = "https://api.example.org"  # optional: where to ask for TURN servers
```
