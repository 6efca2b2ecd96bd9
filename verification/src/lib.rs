//! A pool of JavaScript workers behind Node-API thread-safe functions.
//!
//! JavaScript threads register a function each. A batch of calls is spread over them, each
//! call going to the worker with the fewest unanswered ones, and the answers are added up.
//!
//! - [`status`] has the status codes of Node-API and the errors made from them.
//! - [`node`] has the calls into Node-API, which the surroundings make.
//! - [`threadsafe_function`] has the handles by which any thread can have a JavaScript function
//!   called, and [`call_js`] what is done on the thread that owns the function.
//! - [`report`] raises what went wrong there.
//! - [`pool`] has the workers and the choice among them, [`batch`] the calls and their sum, and
//!   [`deal`] hands the numbers out.
//! - [`lifecycle`] keeps the handles of a function together; it and [`balance`] prove what
//!   holds over many steps, of handles and of the loads of the workers.

pub mod balance;
pub mod batch;
pub mod call_js;
pub mod deal;
pub mod lifecycle;
pub mod node;
pub mod pool;
pub mod report;
pub mod status;
pub mod threadsafe_function;
