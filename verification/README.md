# notifications

A desktop notification daemon following the XDG Desktop Notifications
Specification, with its core proved correct in Verus.

- `src/` is the verified library: urgency levels and close reasons with their
  wire codes, the notification history (`data::ServiceData`) with its
  identifier counter, the handling of each `Notify` request (identifier choice,
  action pairing, urgency hint, icon source), the hash-map based store of the
  older service, the GObject-facing enums and error codes, and the decisions
  that keep a user interface's list of notifications in step with the service.
  The user interface's list is searched as a `Vec` of items: gio's `ListStore`
  could not be built here, so `app/` hands the library the list's items and
  performs the planned change on the `ListStore` itself.
- `app/` is the runtime around it: the `org.freedesktop.Notifications` interface
  on the session bus (zbus), the history file (serde_json), event channels
  (tokio), notification and action handles, and the GObject layer (glib, gio,
  gdk-pixbuf).
- `tests/` exercise the library on concrete values.
