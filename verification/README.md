# nri

Software for the NRI haptic sensing rig: a supervisor that runs one thread per sensor service,
command-line and web interfaces to control it, and data-collection *flows* that step the
operator through an experiment.

The library (`src/`) holds the rig's logic, verified with Verus:

- `flow`, `flow_parse`, `flow_run`, `flow_laws`: flows, the flow file format (in the dialects of
  the back end and of the two web front ends), what each step of a flow does, and the
  properties that tie reading, running and resetting flows together;
- `supervisor`: finding services by name, routing data between services, timing services;
- `comms`, `mpmc`, `cli`: commands between the supervisor and services, the service loop's
  decisions, fan-out channels, and the command-line language;
- `web`: the web front ends' flows and prompts, their requests and replies, new connections,
  and the text their pages send;
- `scribe`: the writer of data files (handles, file patterns, packet numbering);
- `packet`, `park`, `optoforce`, `structure`, `bluefox`: sensor boards and devices (packet
  layout, parking-lot state, sensor settings, status and error codes, pixel formats);
- `transfer`: the checks of the dataset transfer tool;
- `render`: which cropped frames of a recording the renderer keeps;
- `text`, `utils`: text and container helpers, and the decisions of retrying a failed action.

`app/` is the program around it: the supervisor's threads, the service loop, the command-line
service, the parking-lot query, the flow runner's files and prompts, and the `stbdump` and
`transfer` tools.
