# lore_auth

The authentication and start-up logic of a Lore deployment, verified with Verus.

`src/` is the library. Its functions carry contracts and Verus proves them; the laws that relate
several functions are public proof functions whose names begin with `law_`.

- `authentication`, `auth_service`, `login`, `oidc`, `oidc_refresh`, `pkce`, `session`: logging in
  and out, with a token, over an authentication service or over OpenID Connect.
- `jwk`, `jwt_interceptor`, `obliterate`, `repository_service`, `status`: what the server does with a
  request that carries a token.
- `settings`, `endpoints`, `stores`, `seeding`, `startup`, `runtime`, `shutdown`: how the server
  starts, which endpoints and stores it opens, and how it ends.
- `text`, `keyed`, `urls`, `errors`, `credentials`: what the others share.
- `laws`: laws across modules.

Flows that alternate work on the outside with decisions are state machines: each method takes what
came of the last piece of work and returns what to do next. `app/` does that work: it talks to the
network, the file system and the services of a deployment.

Calls into other crates stand in small functions marked `external_body`, with a contract that says
what they are relied on for.
