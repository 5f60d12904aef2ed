# cosmic-weather-applet

A weather applet for the COSMIC panel. The panel shows the temperature at a
chosen place; a popup lets the user search for a city, detect the location
from the machine's public address, or type coordinates, and pick Celsius or
Fahrenheit.

`src/` is the applet's logic, verified with Verus:

- `applet.rs`: the state machine behind the panel button and the popup. Each
  message yields the next state and the list of actions for the caller to
  perform; `step` states both, and the laws about popups, saving, searching
  and locating are proved over it.
- `geolocation.rs`: the Nominatim request address, the name a hit is offered
  under, and the ranking of hits into at most five cities by fuzzy-match
  score, with its laws.
- `ranking.rs`: the stable descending sort of results and its laws (ordered,
  a permutation, stable).
- `text.rs`: blank texts and the text before the first comma.
- `config.rs`: the applet's identifiers and the day/night icon.

`app/` is the COSMIC application around it: the window, the HTTP requests,
the configuration on disk, and everything that handles floating point numbers
(temperatures and coordinates).
