# hubbub_html_parser

The tree-building side of a page parser that runs on hubbub, an HTML parsing
library. The library decides which DOM nodes the calls of hubbub create, which
style sheets, scripts, frames and images they ask for, and how what is loaded is
put back together for the page. It is verified with Verus.

| module     | what it holds                                                     |
|------------|-------------------------------------------------------------------|
| `tags`     | tag names and the element types they stand for                    |
| `attr`     | start tags and attributes                                         |
| `element`  | elements, and how a start tag becomes one                         |
| `dom`      | nodes, their parents and children                                 |
| `tree`     | the tree handler that answers the calls of hubbub                 |
| `css`      | the collector of style sheets                                     |
| `script`   | the collector of scripts                                          |
| `page`     | the parse of a page from its start to its end                     |
| `trace`    | what holds of whole series of calls                               |
| `delivery` | what arrives at the page, and in which order                      |
| `messages` | what the parser, the loaders and the page say to each other       |
| `url`      | locations, read and resolved by the `url` crate                   |
| `text`     | equality of strings                                               |

The `url` crate stands in for a browser's own type of location and its own way of
making one out of a reference in a page.

`app/` holds the threads and channels around it. Hubbub, the resource loader, the
style sheet parser and the page itself are traits there.
