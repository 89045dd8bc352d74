# Predator Sense

Fan control and main window of the Predator Sense application for Acer Predator
and Nitro laptops. The decisions are a library verified with Verus; the program
around it talks to the hardware and draws the window.

- `src/` is the library. Each function states in its contract what it decides,
  and the laws that hold across functions are public proof functions.
  - `celsius`, `curve`: temperatures and the software fan curve
  - `helper`, `fan`, `wake`, `pwm`: what the privileged helper is asked, in which
    order, and what its replies mean
  - `profile`, `monitor`: the Turbo key, the colour of the application, the
    profiles per power source, the assistant's checks
  - `navigation`, `window`, `resources`: the sidebar, the tray, files
  - `settings`, `setup`, `language`: the settings page
  - `text`: reading and comparing text
- `tests/` runs the library on concrete values.
- `app/` is ordinary Rust: it performs what the library asks for and hands the
  answers back. It needs GTK 4 and libadwaita.
