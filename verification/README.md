# couveuse

Firmware logic of an egg incubator (*couveuse*): a DS18B20 measures the temperature,
a DHT11 the humidity, two active-low relays switch heating and cooling, and a
128x64 OLED screen shows the readings.

- `src/` is the verified library. It decides what to do and what to show:
  - `temperature`: temperatures in sixteenths of a degree and the ideal range;
  - `relay`: which pins a temperature switches, and in which order;
  - `message`, `digits`, `label`: the texts of the screen and where they stand;
  - `bus`: addresses on the 1-Wire bus and the report of a search;
  - `controller`: the sequence of actions, as a state machine;
  - `cycle`: what holds of every run of that state machine.
- `app/` is the firmware for the ESP32. It sets up the peripherals and carries out
  the actions that the controller asks for.
- `tests/` runs the library on a host.
