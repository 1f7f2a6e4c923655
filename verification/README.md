# oxfeed_front

The logic of the Oxfeed web front end, verified with Verus.

`src/` is the library. Each public function states what it returns in its
contract, and the properties that relate several calls stand as proof
functions beside them:

- `alert`, `action`: alerts and their styles; what a failed call becomes.
- `color`: the color derived from a name (SHA-256), its `#RRGGBB` notation,
  and whether it is dark.
- `route`, `sidebar`: the pages, the links of the sidebar with their counts
  and the search link, the icon of the page.
- `items`: selecting items one by one or by range, all or none, and taking
  the selected ones for a bulk action.
- `pager`: the links of the pager under a list.
- `autocomplete`, `form`, `search`: the keyboard of the tag completion, the
  password field, the switches and tags of a source, the filter expression,
  the address of a search.
- `api`, `json`, `text`: the requests sent to the API (method, path, body)
  and how the status of an answer is read.

`app/` is the browser side: it sends the requests, keeps the login token in
a cookie and draws the screens with yew. `tests/` runs the library on
concrete values.
