# dagq

The rules of a task queue whose tasks are worked on by agent sessions, written
and proved in Verus: when a run is claimed, reviewed, resumed, recovered, landed
on `main` and cleaned up after, and how the resident supervisor and its
workspaces are started, replaced and stopped.

## Layout

- `src/` is the library. Every item in it is verified but three that are trusted:
  `String::push`, the way a text is quoted for a person (`text::debug_text`) and
  the reading of one member of a JSON document (`recovery::member_text`). Each
  says above it what is believed of the call.
  - `integrate` lands a validated run: the receipt check, the integration slot,
    the rebase and re-validation, migration numbers, the push and the follow-ups.
  - `lifecycle` brings the supervisor and the inbox up and down.
  - `planner` opens planners and judges how they stand.
  - `supervise` is the loop: its slots, the exits of sessions, resumes, stalls,
    recovery, triage, takeovers, plan reviews, cleanup and disk space.
  - `domain`, `json`, `path` and `text` hold the values all of these speak of.
- `tests/` runs the library on concrete values.
- `app/` performs what the library decides on: threads, load averages, JSON
  documents and the ports to the queue, Git, cmux, launchd and the host.

## How the rules are written

Most of what the supervisor does alternates between a look at the outside world
and a decision. Each such activity is a pure function from what has been done
and observed so far (a `…Seen` value) to the next step (a `…Step` value). Its
contract says which step follows from which observations, and what the step
carries; the caller performs the step, notes what came of it, and asks again.
Where a step stands for an activity of its own (a poll that recovers a session,
a pass that delivers an answer), another function of the library gives that
activity's steps. Nothing is assumed of the outside world: what holds is proved
for every answer it gives.

Some texts are made elsewhere and handed in: the prompts of planners, the request
of a resumed session, the names and descriptions of workspaces, the names of the
agent. The contracts say where such a text goes, not how it reads.

Properties that span several functions stand as public proof functions beside
them, each with the property in words above it.
