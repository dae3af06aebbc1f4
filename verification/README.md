# sys2mqtt

A daemon that sends system information (a heart beat, the load averages, whether the
user is idle) to an MQTT broker.

- `src/` is the library, verified with Verus: the broker settings and the making of the
  client (`config`), the resolution of each plugin's settings from its file section and
  its environment variables, the topics, and the decisions of each plugin (`plugins`),
  with laws such as "the environment takes precedence over the file" and "a subscriber
  hears of changes of the idle state only, and always ends up with the current one".
- `app/` is the program around it: reading the configuration file and the environment,
  querying the machine, publishing and sleeping.
- `tests/` exercises the library on concrete values.
