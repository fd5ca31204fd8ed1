//! The static landing page of the demo front-end.  The page is a fixed
//! document; serving it is the host's job.

use vstd::prelude::*;

verus! {

/// The landing page text, as a specification-level character sequence.
pub open spec fn landing_page() -> Seq<char> {
    "\n        <html>\n            <head>\n                <title>Test</title>\n            </head>\n            <body id='test'>\n                <div>Test</div>\n            </body>\n        </html>\n    "@
}

/// The landing page served at the root route.
pub fn index() -> (r: &'static str)
    ensures
        r@ == landing_page(),
{
    "\n        <html>\n            <head>\n                <title>Test</title>\n            </head>\n            <body id='test'>\n                <div>Test</div>\n            </body>\n        </html>\n    "
}

} // verus!
