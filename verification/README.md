# matrix_feed

Serves a Matrix room on the web: an HTML feed page of its recent messages, an RSS channel,
a live chat over a web socket, and a sign-up form that registers accounts on the home server
through its shared-secret registration endpoint.

`src/` is the library, verified with Verus:

- `text`: line feeds to `<br>`, decimal numbers, lower-case hex.
- `mxc`: `mxc://` URIs (split by ruma) and the addresses that serve their media.
- `time`: timestamps written by `chrono` at a UTC offset.
- `message`: the room messages that the feeds and the chat read.
- `html`, `html_string`: the `ToHtml` and `ToHtmlString` renderings of messages and times.
- `feed`, `rss`: the feed page (rendered by handlebars) and the RSS channel (written as XML
  by the rss crate).
- `chat`: chat lines, the history sent when a chat opens, and the web-socket session's
  decisions (forwarding, heartbeat, closing).
- `signup`: sign-up forms and the registration MAC.

`app/` is the program around it: command-line arguments, the Matrix client, the HTTP routes,
the web-socket loop and the HTTP exchange of the sign-up. It reads the page template from
`feed.hbs` in the working directory at start-up and checks that it renders.
