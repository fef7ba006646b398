//! The style sheets and scripts of the pages, and the help texts of their
//! controls. They are part of the program, so that it ships as one file.

use vstd::prelude::*;

verus! {

/// The style sheet that every page carries.
pub fn master_css_content() -> (r: String)
    ensures
        r@ == MASTER_CSS@,
{
    MASTER_CSS.to_owned()
}

/// The style sheet of the home page.
pub fn root_stylesheet() -> (r: String)
    ensures
        r@ == ROOT_CSS@,
{
    ROOT_CSS.to_owned()
}

/// The style sheet of a modlist's page.
pub fn modlist_stylesheet() -> (r: String)
    ensures
        r@ == MODLIST_CSS@,
{
    MODLIST_CSS.to_owned()
}

/// The script of a modlist's page.
pub fn modlist_javascript() -> (r: String)
    ensures
        r@ == MODLIST_JS@,
{
    MODLIST_JS.to_owned()
}

/// The style sheet of a modlist's editing page.
pub fn modlist_edit_stylesheet() -> (r: String)
    ensures
        r@ == EDIT_CSS@,
{
    EDIT_CSS.to_owned()
}

/// The style sheet of the editing page of a modlist's folder.
pub fn modlist_folder_edit_stylesheet() -> (r: String)
    ensures
        r@ == FOLDER_EDIT_CSS@,
{
    FOLDER_EDIT_CSS.to_owned()
}

/// The style sheet of a modlist's merge page.
pub fn modlist_merge_stylesheet() -> (r: String)
    ensures
        r@ == MERGE_CSS@,
{
    MERGE_CSS.to_owned()
}

/// The script of a modlist's merge page.
pub fn modlist_merge_javascript() -> (r: String)
    ensures
        r@ == MERGE_JS@,
{
    MERGE_JS.to_owned()
}

/// The style shared by every page.
pub const MASTER_CSS: &'static str = "
  html, body {
    /*font-family: 'Segoe UI', Tahoma, Geneva, Verdana, sans-serif;*/
    font-family: Bahnschrift;
    color: white;
    background: #171413;
    min-height: 100vh;
  
    padding: 0;
    margin: 0;
    font-size: 120%;
  }
  
  :root {
    --var-color-accent: #a78445;
  }

  .menu {
    display: flex;
    align-items: flex-end;
    justify-content: center;
  }
  
  .menu, #content {
    padding: .5em
  }
  
  .menu a {
    font-size: 3em;
    font-family: monospace;
    color: var(--var-color-accent);
    font-weight: bold;
  }
  
  a, .accent {
    color: var(--var-color-accent);
    text-decoration: none;
  }

  input, select {
    background: #2a2731;
    border-radius: 3px;
    border: solid 1px rgb(167 132 69 / 13%);
    padding: 4px;
    color: whitesmoke;
    font-family: Bahnschrift;
  }

  input[type='submit'] {
    background: none;
    color: grey;
    outline: none;
    border: none;
    border-radius: 0;
    cursor: pointer;
    padding: 3px;
  }

  input[type='submit']:hover {
    color: white;
  }
  
  .row {
    display: flex;
    flex-direction: row;
  }
  
  .row.even {
    justify-content: space-evenly;
  }

  .center {
    text-align: center;
    justify-content: center;
  }
  
  h1 {
    text-decoration: underline;
    text-transform: uppercase;
    text-align: center;
  }
  
  h2 {
    font-size: 1.1em;
  }
  
  .row + form {
    margin: 1em;
  }
  
  
  
  
  li input {
    margin-left: 1em;
    cursor: pointer;
  }

  .rotate-90-clockwise {
    transform: rotate(90deg);
  }

  .text-style {
    background: none;
    border: none;
    color: var(--var-color-accent);
    cursor: pointer;
  }

  .text-style:disabled, .disabled {
    text-decoration: line-through;
  }

  .small {
    font-size: 0.6em;
  }
  .tad-smaller {
    font-size: 0.7em;
  }

  .big {
    font-size: 1.6em;
  }

  .flex-end {
    justify-content: flex-end;
  }

  .flex-center {
    justify-content: center;
  }

  .disabled-folder {
    font-style: italic;
    opacity: 0.5;
  }

  .hidden {
    display: none;
  }

  .folder-display {
  }

  .folder-display + a {
    transition: 0.25s all;
    
    transform: translate(-5px, 0);
    opacity: 0;
    padding-left: .2em;
    padding-right: .6em;
  }

  .folder-display:hover + a,
  .folder-display + a:hover {
    
    padding-left: .6em;
    padding-right: .2em;
    opacity: 1;
  }
  ";

/// The style of the home page.
pub const ROOT_CSS: &'static str = "
    ul {
      padding-left: 0;
    }

    .create input + input {
      margin-left: 8px;
    }

    .modlist-containers {
      display: flex;
      flex-direction: row;
      justify-content: space-evenly;
    }

    .modlist-containers .column + .column {
      margin-left: 2em;
    }

    .modlist-containers .column .level-list {
      list-style: none;
    }

    .modlist-containers .column .level-list h3 {
      
      margin: 0;
    }

    .modlist-containers .column .level-listing ul {
      padding-left: 1em;
      margin-left: 5px;
      border-left: solid 1px white;
      list-style: none;
    }

    .modlist-containers .modlist {
      position: relative;
      display: flex;
      justify-content: space-between;
    }

    .modlist-containers .modlist:before {
      content: '';
      position: absolute;
      border-bottom: solid 1px white;
      width: 13px;
      top: 50%;
      left: -23px;
    }

    .modlist:last-child::after {
      content: '';
      background: #171413;
      width: 20px;
      height: 50%;
      position: absolute;
      top: calc(50% + 1px);
      left: -24px;
    }
  ";

/// The style of a modlist's page.
pub const MODLIST_CSS: &'static str = "
    h1 {
      margin-bottom: 0;
    }


    .folder-list-container {
      display: flex;
      justify-content: space-evenly;
    }
    .folder-list-container .column + .column {
      margin-left: 2em;
    }

    .folder-list-container .column .folder-list {
      list-style: none;
    }

    .folder-list-container .column h3, .folder-list-container ul {
      margin: 0;
      padding: 0;
    }

    .folder-list-container .column .folder-listing {
      padding-left: 1em;
      margin-left: 5px;
      border-left: solid 1px white;
      list-style: none;
    }

    .folder-list-container .folder-listing, .folder-list-container .folder-list {
      position: relative;
    }

    .folder-list-container .folder-listing:not(.do-not-hide-bar):before {
      content: '';
      position: absolute;
      border-bottom: solid 1px white;
      width: 13px;
      top: 50%;
      left: 0;
    }

    /*
    small hack to hide the center horizontal bar
    */
    .folder-listing .folder-list::before {
      content: '';
      position: absolute;
      top: 0;
      width: 13px;
      background: #171413;
      left: -49.5px;
      height: 100%;
    }

    .folder-listing h3 {
      position: relative;
    }
    .folder-listing h3::before {
      content: '';
      position: absolute;
      top: 50%;
      width: 15px;
      background: white;
      left: -50px;
      height: 1px;
    }
    

    .folder-listing:last-child .folder-list::before {
      left: -51px;
      width: 16px;
      top: 12px;
      height: calc(100% + 9px);
    }

    .folder-listing:last-child::after {
      content: '';
      background: #171413;
      width: 5px;
      height: 50%;
      position: absolute;
      top: calc(50% + 1px);
      left: -1px;
    }

    .toggle-modlist-folder-button {
      display: flex;
      align-items: baseline;
      background: #171413;
      z-index: 1;
      padding: 0 .5em;
      cursor: pointer;
    }

    section.imports {
      margin: auto;
      margin-top: 3em;
      max-width: 350px;
    }
    section.imports ul {
      list-style: none;
    }
    section.imports ul li {
      display: flex;
      justify-content: space-between;
    }

    .modlist-name + a {
      transition: 0.25s all;
      
      transform: translate(-5px, 0);
      opacity: 0;
      padding-left: .2em;
      padding-right: .6em;
    }
  
    .modlist-name:hover + a,
    .modlist-name + a:hover {
      
      padding-left: .6em;
      padding-right: .2em;
      opacity: 1;
    }

    .merge-conflict-view {
      margin: 5em 0;
      font-size: 12px;
      display: flex;
      flex-direction: column;
      justify-content: center;
      align-items: center;
    }

    .merge-conflict-view .merge-conflict {
      margin: 4em 0;
    }

    .merge-conflict > div {
      display: flex;
    }

    .merge-conflict .row .left {
      display: flex;
      align-items: center;
      justify-content: center;
      width: 50px;
      position: relative;
    }

    .merge-conflict .row .left .modname {
      position: absolute;
      left: 0;
      transform: translate(-100%, 0%);
    }

    .merge-conflict .row .left button {
      background: none;
      outline: none;
      border: none;
      cursor: pointer;
      color: green;
    }

    .merge-conflict .row pre {
      flex-grow: 1;
      cursor: default;
    }

    

    .merge-conflict .row.accepted .reject {
      display: none;
    }

    .merge-conflict .row.rejected .accept {
      display: none;
    }

    .merge-conflict .row .left:hover + pre {
      background: rgba(250, 250, 250, .02);
    }

    .merge-conflict button {
      transition: .075s all ease-in-out;
    }
    .merge-conflict button:hover {
      transform: scale(1.25);
    }
    .merge-conflict button:active {
      transform: scale(2);
    }

    .merge-conflict .row.rejected pre {
      opacity: .1;
    }

    pre {
      margin: 0;
    }

    .context-before, .context-after {
      opacity: .1;
    }

    .ours {
      color: #8bc34a;
    }

    .theirs {
      color: #E91E63;
    }
  ";

/// The script of a modlist's page: the folder lists open and close.
pub const MODLIST_JS: &'static str = "
  window.addEventListener('click', e => {
    if (e.target.matches('.folder-list .toggle-modlist-folder-button')) {
      const folder_list = e.target.nextElementSibling.querySelector('.folder-list');
  
      e.target.parentElement.classList.toggle('do-not-hide-bar');
      folder_list.classList.toggle('hidden');
      e.target.textContent = e.target.textContent
        .replace('-', '$')
        .replace('+', '-')
        .replace('$', '+');
    }
  });

  function openwebsocket() {
    let socket = null;
    try {
      socket = new WebSocket('ws://localhost:5001', 'rust-websocket');
    } catch (exception) {
        console.error(exception);
    }

    socket.onerror = function(error) {
        console.error(error);
    };

    socket.onopen = function(event) {
        this.onclose = function(event) {};

        this.onmessage = function(event) {
          const data = JSON.parse(event.data);

          if (!data.conflicts.length) {
            Array.from(document.querySelectorAll('.merge-conflict.custom'))
            .forEach(node => node.remove());

            socket.close();

            return;
          }

          show_conflicts(data, socket);
        };

        // this.send('start');
    };
  }

  function show_conflicts(conflict_data, socket) {
    console.log(conflict_data);

    document.querySelector('.merge-conflict-view .actions .resolve').onclick = e => {
      const conflict_resolvers = Array.from(document.querySelectorAll('.merge-conflict.custom'));

      for (let i = 0; i < conflict_resolvers.length; i += 1) {
        const $resolver = conflict_resolvers[i];


        const $context_before = $resolver.querySelector('.context-before');
        conflict_data.conflicts[i].context_before = $context_before.querySelector('pre').textContent;

        const $context_after = $resolver.querySelector('.context-after');
        conflict_data.conflicts[i].context_after = $context_after.querySelector('pre').textContent;

        const $original = $resolver.querySelector('.original');
        if ($original.classList.contains('accepted') && !$original.classList.contains('rejected')) {
          conflict_data.conflicts[i].original = $original.querySelector('pre').textContent;
        }
        else {
          conflict_data.conflicts[i].original = '';
        }

        const $ours = $resolver.querySelector('.ours');
        if ($ours.classList.contains('accepted') && !$ours.classList.contains('rejected')) {
          conflict_data.conflicts[i].ours = $ours.querySelector('pre').textContent;
        }
        else {
          conflict_data.conflicts[i].ours = '';
        }

        const $theirs = $resolver.querySelector('.theirs');
        if ($theirs.classList.contains('accepted') && !$theirs.classList.contains('rejected')) {
          conflict_data.conflicts[i].theirs = $theirs.querySelector('pre').textContent;
        }
        else {
          conflict_data.conflicts[i].theirs = '';
        }
      }

      const message = JSON.stringify(conflict_data);
      socket.send(message);

      // remove all the conflicts that were previously shown
      Array.from(document.querySelectorAll('.merge-conflict.custom'))
        .forEach(node => node.classList.add('to-recycle'));

      document.querySelector('.actions.row').classList.add('hidden');
      document.querySelector('.merge-conflict-view .filename').textContent = '';
      document.querySelector('.merge-conflict-view .conflict-count').textContent = '';
    };

    document.querySelector('.merge-conflict-view .filename').textContent = conflict_data.file_name;
    document.querySelector('.merge-conflict-view .conflict-count').textContent = `${conflict_data.conflicts.length} conflicts`;

    document.querySelector('.actions.row').classList.remove('hidden');

    // first we remove all the conflicts that were previously shown
    Array.from(document.querySelectorAll('.merge-conflict.custom'))
      .forEach(node => node.classList.add('to-recycle'));

    // this is the base node, we copy it for every conflict we have
    const $mergeconflict = document.querySelector('.merge-conflict');

    for (const conflict of conflict_data.conflicts) {
      // first we check if there is a conflict node to recycle
      let $custom = document.querySelector('.to-recycle');

      const recycled = $custom !== null;
      if (!recycled) {
        $custom = $mergeconflict.cloneNode(true);
        $custom.classList.remove('hidden');
        $custom.classList.add('custom');
      }
      else {
        $custom.classList.remove('to-recycle');
      }


      $custom.querySelector('.context-before pre').textContent = conflict.context_before;
      $custom.querySelector('.context-after pre').textContent = conflict.context_after;
      $custom.querySelector('.content.original pre').textContent = conflict.original;
      $custom.querySelector('.content.ours pre').textContent = conflict.ours;
      $custom.querySelector('.content.theirs pre').textContent = conflict.theirs;

      $custom.querySelector('.content.original').classList.remove('accepted');
      $custom.querySelector('.content.ours').classList.remove('rejected');
      $custom.querySelector('.content.theirs').classList.remove('rejected');
      $custom.querySelector('.content.original').classList.add('rejected');
      $custom.querySelector('.content.ours').classList.add('accepted');
      $custom.querySelector('.content.theirs').classList.add('accepted');

      $custom.querySelector('.content.theirs .modname').textContent = conflict_data.mod_name;

      if (!recycled) {
        $custom.addEventListener('click', e => {
          if (e.target.matches('button')) {
            const row = e.target.parentElement.parentElement;
            row.classList.toggle('accepted');
            row.classList.toggle('rejected');
          }
        })

        $mergeconflict.parentElement.appendChild($custom);
      }
    }

    // first we remove all the conflicts that were previously shown
    Array.from(document.querySelectorAll('.to-recycle'))
      .forEach(node => node.remove());
  }

  function start_socket_merging() {
    const modlist_name = location.pathname.split('/').slice(-1)[0];

    fetch('/api/modlist/merge', {
      method: 'POST',
      body: `modlist_name=${modlist_name}`,
      headers: {
          'Content-Type': 'application/x-www-form-urlencoded',
      },
      method: 'post',
    })
    .then(console.log)
    .catch(console.log);
  
    setTimeout(() => {
      openwebsocket();
    }, 50);
  }
  
  ";

/// The style of a modlist's editing page.
pub const EDIT_CSS: &'static str = "
    body {
      font-size: 100%;
    }

    h2 {
      position: relative;
    }

    h2::before,
    h2::after {
      content: '';
      position: absolute;
      height: 1.5px;
      width: 150px;
      top: 50%;
      background: rgba(250, 250, 250, 0.05);
    }

    h2::before {
      right: 65%;
    }

    h2::after {
      left: 65%;
    }

    .row {
      display: flex;
      flex-wrap: wrap;
      justify-content: center;
    }

    .column {
      max-width: 250px;
      flex-grow: 1;
      padding: 0 2em;
    }
    .column + .column {
      border-left: solid 1px rgba(250, 250, 250, 0.05);
    }
    .column h3 {
      text-transform: uppercase;
    }

    form {
      display: flex;
      flex-direction: column;
    }

    form input[type='submit'] {
      font-size: 150%;
    }

  ";

/// The style of the editing page of a folder.
pub const FOLDER_EDIT_CSS: &'static str = "
    body {
      font-size: 100%;
    }

    h2 {
      position: relative;
    }

    h2::before,
    h2::after {
      content: '';
      position: absolute;
      height: 1.5px;
      width: 150px;
      top: 50%;
      background: rgba(250, 250, 250, 0.05);
    }

    h2::before {
      right: 65%;
    }

    h2::after {
      left: 65%;
    }

    .row {
      display: flex;
      flex-wrap: wrap;
      justify-content: center;
    }

    .column {
      max-width: 250px;
      flex-grow: 1;
      padding: 0 2em;
    }
    .column + .column {
      border-left: solid 1px rgba(250, 250, 250, 0.05);
    }
    .column h3 {
      text-transform: uppercase;
    }

    form {
      display: flex;
      flex-direction: column;
    }

    form input[type='submit'] {
      font-size: 150%;
    }

  ";

/// The style of the merge page.
pub const MERGE_CSS: &'static str = "
    h1 {
      margin-bottom: 0;
    }

    .menu {
      justify-content: unset;
    }

    .menu a {
      display: none;
    }

    #content, menu {
      padding: 0;
    }

    .merge-started,
    .merge-finished {
      position: fixed;
      top: 50%;
      left: 50%;
      transform: translate(-50%, -50%);
      transition: 1s all ease-in-out;
      font-size: 2em;
      display: block;
    }

    .merge-finished.hidden {
      transform: translate(-50%, 60%);
      opacity: 0;
    }

    .merge-started {
      animation: 1s ease-out 0s infinite wobble;
    }

    @keyframes wobble {
      0% {
        transform: translate(-50%, -50%) scale(1);
      }

      30% {
        transform: translate(-50%, -50%) scale(1);
      }
      35% {
        transform: translate(-50%, -50%) scale(1.2);
      }
      40% {
        transform: translate(-50%, -50%) translateY(-50%, 0);
      }
    }

    .merge-started.hidden {
      display: none;
    }

    button.resolve {
      position: fixed;
      font-size: 2.5em;
      left: 50%;
      top: 1em;
      transform: translate(-50%, 0);
      background: #171413;
      padding: .1em 2em;
      border: solid 1px var(--var-color-accent);
      z-index: 10;

      transition: .05s transform;
    }

    button.resolve.hidden {
      display: block;
      transform: translate(-50%, -300px);
    }

    button.resolve:hover {
      color: #d6b06c;
      border-color: #d6b06c;
    }

    button.resolve:active {
      transform: translate(-50%, 0) scale(1.05);
    }

    button.resolve:not(.hidden) {
      animation: .25s ease-out 0s 1 slideInFromTop;
    }

    @keyframes slideInFromTop {
      0% {
        transform: translate(-50%, -100%);
      }
      100% {
        transform: translateY(-50%, 0);
      }
    }

    .merge-conflict-view {
      font-size: 12px;
      display: flex;
      flex-direction: column;
      justify-content: center;
      align-items: center;
      min-height: 100vh;
    }

    .merge-conflict-view .merge-conflict {
      margin: 4em 0;
    }

    .merge-conflict > div {
      display: flex;
    }

    .merge-conflict .row .left {
      display: flex;
      align-items: center;
      justify-content: center;
      width: 50px;
      position: relative;
    }

    .merge-conflict .row .left .modname {
      position: absolute;
      left: 0;
      transform: translate(-100%, 0%);
    }

    .merge-conflict .row .left button {
      background: none;
      outline: none;
      border: none;
      cursor: pointer;
      color: green;
    }

    .merge-conflict .row .left button.active {
      outline: solid 1px white;
    }

    .merge-conflict .row pre {
      flex-grow: 1;
      cursor: default;
    }

    

    .merge-conflict .row.accepted .reject {
      display: none;
    }

    .merge-conflict .row.rejected .accept {
      display: none;
    }

    .merge-conflict .row .left:hover + pre {
      background: rgba(250, 250, 250, .02);
    }

    .merge-conflict button {
      transition: .075s all ease-in-out;
    }
    .merge-conflict button:hover {
      transform: scale(1.25);
    }
    .merge-conflict button:active {
      transform: scale(2);
    }

    .merge-conflict .row.rejected pre {
      opacity: .1;
    }

    pre {
      margin: 0;
      font-family: inherit;
      font-size: 1.5em;
    }

    .context-before, .context-after {
      opacity: .1;
    }

    .ours {
      color: grey;
    }

    .theirs {
      color: var(--var-color-accent);
    }
  ";

/// The script of the merge page: it talks to the script merger over a web socket and sends back the resolved conflicts.
pub const MERGE_JS: &'static str = "
  function openwebsocket() {
    let socket = null;
    try {
      socket = new WebSocket('ws://localhost:5001', 'rust-websocket');
    } catch (exception) {
        console.error(exception);
    }

    socket.onerror = function(error) {
        console.error(error);
    };

    socket.onopen = function(event) {
        this.onclose = function(event) {};

        this.onmessage = function(event) {
          const data = JSON.parse(event.data);

          if (!data.conflicts.length) {
            socket.close();

            return finish_socket_merging();
          }

          show_conflicts(data, socket);
        };

        // this.send('start');
    };
  }

  function show_conflicts(conflict_data, socket) {
    console.log(conflict_data);

    document.querySelector('.merge-started').classList.add('hidden');

    document.querySelector('.merge-conflict-view button.resolve').onclick = e => {
      const conflict_resolvers = Array.from(document.querySelectorAll('.merge-conflict.custom'));

      for (let i = 0; i < conflict_resolvers.length; i += 1) {
        const $resolver = conflict_resolvers[i];


        const $context_before = $resolver.querySelector('.context-before');
        conflict_data.conflicts[i].context_before = $context_before.querySelector('pre').textContent;

        const $context_after = $resolver.querySelector('.context-after');
        conflict_data.conflicts[i].context_after = $context_after.querySelector('pre').textContent;

        const $original = $resolver.querySelector('.original');
        if ($original.classList.contains('accepted') && !$original.classList.contains('rejected')) {
          conflict_data.conflicts[i].original = $original.querySelector('pre').textContent;
        }
        else {
          conflict_data.conflicts[i].original = '';
        }

        const $ours = $resolver.querySelector('.ours');
        if ($ours.classList.contains('accepted') && !$ours.classList.contains('rejected')) {
          conflict_data.conflicts[i].ours = $ours.querySelector('pre').textContent;
        }
        else {
          conflict_data.conflicts[i].ours = '';
        }

        const $theirs = $resolver.querySelector('.theirs');
        if ($theirs.classList.contains('accepted') && !$theirs.classList.contains('rejected')) {
          conflict_data.conflicts[i].theirs = $theirs.querySelector('pre').textContent;
        }
        else {
          conflict_data.conflicts[i].theirs = '';
        }
      }

      const message = JSON.stringify(conflict_data);
      socket.send(message);

      // remove all the conflicts that were previously shown
      Array.from(document.querySelectorAll('.merge-conflict.custom'))
        .forEach(node => node.classList.add('to-recycle'));

      document.querySelector('button.resolve').classList.add('hidden');
      // document.querySelector('.merge-conflict-view .filename').textContent = '';
      // document.querySelector('.merge-conflict-view .conflict-count').textContent = '';
    };

    document.querySelector('.merge-conflict-view .filename').textContent = conflict_data.file_name;
    document.querySelector('.merge-conflict-view .conflict-count').textContent = `${conflict_data.conflicts.length} conflicts`;

    document.querySelector('button.resolve').classList.remove('hidden');

    // first we remove all the conflicts that were previously shown
    Array.from(document.querySelectorAll('.merge-conflict.custom'))
      .forEach(node => node.classList.add('to-recycle'));

    // this is the base node, we copy it for every conflict we have
    const $mergeconflict = document.querySelector('.merge-conflict');

    for (const conflict of conflict_data.conflicts) {
      // first we check if there is a conflict node to recycle
      let $custom = document.querySelector('.to-recycle');

      const recycled = $custom !== null;
      if (!recycled) {
        $custom = $mergeconflict.cloneNode(true);
        $custom.classList.remove('hidden');
        $custom.classList.add('custom');
      }
      else {
        $custom.classList.remove('to-recycle');
      }


      $custom.querySelector('.context-before pre').textContent = conflict.context_before;
      $custom.querySelector('.context-after pre').textContent = conflict.context_after;
      $custom.querySelector('.content.original pre').textContent = conflict.original;
      $custom.querySelector('.content.ours pre').textContent = conflict.ours;
      $custom.querySelector('.content.theirs pre').textContent = conflict.theirs;

      $custom.querySelector('.content.original').classList.remove('accepted');
      $custom.querySelector('.content.ours').classList.remove('rejected');
      $custom.querySelector('.content.theirs').classList.remove('rejected');
      $custom.querySelector('.content.original').classList.add('rejected');
      $custom.querySelector('.content.ours').classList.add('accepted');
      $custom.querySelector('.content.theirs').classList.add('accepted');

      $custom.querySelector('.content.theirs .modname').textContent = conflict_data.mod_name;

      if (!recycled) {
        $custom.addEventListener('click', e => {
          if (e.target.matches('button')) {
            const row = e.target.parentElement.parentElement;
            row.classList.toggle('accepted');
            row.classList.toggle('rejected');
          }
        })

        $mergeconflict.parentElement.appendChild($custom);
      }
    }

    // first we remove all the conflicts that were previously shown
    Array.from(document.querySelectorAll('.to-recycle'))
      .forEach(node => node.remove());

    // we set all buttons as inactive
    Array.from(document.querySelectorAll('button.active'))
      .forEach(node => node.classList.remove('active'));

    // setTimeout(() => {
      document.querySelector('.merge-conflict.custom .ours').scrollIntoView({
        behavior: 'smooth',
        block: 'center',
        inline: 'center'
      });
    // }, 50);
  }

  function start_socket_merging() {
    const modlist_name = location.pathname.split('/').slice(-2)[0];

    fetch('/api/modlist/merge-scripts', {
      method: 'POST',
      body: `modlist_name=${modlist_name}`,
      headers: {
          'Content-Type': 'application/x-www-form-urlencoded',
      },
      method: 'post',
    })
    .then(console.log)
    .catch(console.log);
  
    setTimeout(() => {
      openwebsocket();
    }, 50);
  }

  function finish_socket_merging() {
    document.querySelector('.merge-finished').classList.remove('hidden');

    Array.from(document.querySelectorAll('.merge-conflict.custom'))
      .forEach(node => node.remove());

    document.querySelector('.merge-conflict-view .filename').textContent = '';
    document.querySelector('.merge-conflict-view .conflict-count').textContent = '';

    setTimeout(() => {
      // remove the last portion of the url
      location.href = location.href.split('/').slice(0, -1).join('/');
    }, 1500);
  }

  document.addEventListener('keypress', e => {
    if (e.target === document.body && e.keyCode === 32) { // space
      document.querySelector('button.resolve').click();
    }

    const z = 122;
    const w = 119;
    const q = 113;
    const s = 115;
    const d = 100;
    if (e.keyCode >= d || e.keyCode <= z) {
      const buttons = Array.from(document.querySelectorAll('.merge-conflict.custom .rejected button.reject, .merge-conflict.custom .accepted button.accept'));

      if (e.keyCode === s) {
        const active_button_index = buttons.reduce((acc, el, i) => el.classList.contains('active', 0) ? i : acc, -1);
  
        const next_active_button = active_button_index + 1;
  
        if (next_active_button < buttons.length) {
          buttons[next_active_button].classList.add('active');
          buttons[active_button_index].classList.remove('active');
          buttons[next_active_button].scrollIntoView({
            behavior: 'smooth',
            block: 'center',
            inline: 'center'
          });
        }
      }

      if (e.keyCode === z || e.keyCode === w) {
        const active_button_index = buttons.reduce((acc, el, i) => el.classList.contains('active', 0) ? i : acc, -1);
  
        const next_active_button = active_button_index - 1;
  
        if (next_active_button >= 0) {
          buttons[next_active_button].classList.add('active');
          buttons[active_button_index].classList.remove('active');
          buttons[next_active_button].scrollIntoView({
            behavior: 'smooth',
            block: 'center',
            inline: 'center'
          });
        }
      }

      if (e.keyCode === d) {
        const button = document.querySelector('.merge-conflict.custom .rejected button.reject.active');

        if (button !== null) {
          button.click();
          button.classList.remove('active');
          button.parentElement.querySelector('button.accept').classList.add('active');
        }
      }

      if (e.keyCode === q) {
        const button = document.querySelector('.merge-conflict.custom .accepted button.accept.active');

        if (button !== null) {
          button.click();
          button.classList.remove('active');
          button.parentElement.querySelector('button.reject').classList.add('active');
        }
      }
    }

    console.log(e.keyCode);
  });

  // start it automatically when the page is loaded
  start_socket_merging();
  
  ";

/// What the pack control does.
pub const PACKING_HELP: &'static str = "
    Packing transforms a modlist in a way that allows you to pre-merge the mods
    and then re-use the merged mods directly the next time you import the modlist.

    What it does:
      It creates a new fake mod with all the script mods there are curerntly in
      the modlist and sets the mod as a high-priority mod so it is loaded before
      the regular mods. And then, it takes the current mergedfiles folder (your merged mods)
      and places its content into the fake mod too. So you now have a fake mod
      that is actually all your mods but already merged.

    So now you can import the modlist and merge the full modlist without having
    to merge the mods again.
    
    You can always revert this change by clicking the unpack button after you
    packed a modlist.
    
    IMPORTANT: You should always pack AFTER merging the mods.
  ";

/// What the unpack control does.
pub const UNPACKING_HELP: &'static str = "
    the unpacking option is available when the modlist manager detects the modlist
    is in a packaged state. The modlist is considered in the packaged state when
    a mod with the same name as the modlist is found in the modlist.

    unpacking a modlist enables all the disabled script mods to the state before
    the modlist was packaged and restores everything including the mergedfiles.
    Note that if you made changes to mods that were packaged AFTER packaging the
    modlist, the changes will be erased. New mods are safe though.

    use this option only if you want to change the modlist, add or remove a mod,
    or make changes to the merges. You will then have the option to pack the
    modlist again if you want to.
  ";

/// Why the pack control is disabled for a modlist that imports others than vanilla.
pub const PACKING_BLOCKED_HELP: &'static str = "
Be aware that packing a modlist changes lots of things to
the mods that are installed in the modlist. So if your modlist happens to
import another modlist and you pack it, the imported modlist will be modified
too until you unpack it. The vanilla modlist being the exception as it doesn't
have any mods.
So in theory you should not pack a modlist that imports other modlists, and you
should organize your modlists in a way where you compose lots of small packed
modlists to build larger modlists. But the larger modlist should NEVER be packed.
  ";

/// What the visibility level of a modlist is for.
pub const VISIBILITY_LEVEL_HELP: &'static str = "
This number is the `visibility level` of the modlist. You will find the same number
in the home page, which you can use to filter the modlists per visibility level.
The value can either be positive or negative, and it's up to you to create a hierarchy
you understand. For example, you could set modlists you install at level 1 and modlists
that are imported by other modlists at level -1. This way, when you're on the home page
you can go left and see the imported modlists or go right and see the modlists you
can install.
  ";

/// What the merge controls do.
pub const MERGE_HELP: &'static str = "
opens the scriptmerger for this modlist and the current imported mods.

NOTE: it doesn't load the imports automatically and you may have to load the imports
first before proceeding.
NOTE: if you merge a modlist that doesn't depend on vanilla, like a shared modlist
you want to pack afterward you may still want to import & load vanilla while you
merge because the scriptmerger (for some reason) fails to merge only two files.
In this case, import vanilla, load the imports then merge. And after you've merged
unload the import and remove vanilla and you can safely pack your modlist.
  ";

} // verus!
