//! Foundation's integer types and the constants that the bindings pass to it.
#![allow(non_upper_case_globals)]

use vstd::prelude::*;

verus! {

/// Foundation's signed integer on 64-bit targets.
pub type NSInteger = i64;

/// Foundation's unsigned integer on 64-bit targets.
pub type NSUInteger = u64;

/// The directory kinds of `-[NSFileManager URLsForDirectory:inDomains:]`.
pub type NSSearchPathDirectory = NSUInteger;

/// The domains of `-[NSFileManager URLsForDirectory:inDomains:]`, a bit mask.
pub type NSSearchPathDomainMask = NSUInteger;

/// `NSUTF8StringEncoding`: the encoding in which strings cross the boundary.
pub const NSUTF8StringEncoding: NSUInteger = 4;

pub const NSSearchPathDirectory_NSApplicationDirectory: NSSearchPathDirectory = 1;
pub const NSSearchPathDirectory_NSDemoApplicationDirectory: NSSearchPathDirectory = 2;
pub const NSSearchPathDirectory_NSDeveloperApplicationDirectory: NSSearchPathDirectory = 3;
pub const NSSearchPathDirectory_NSAdminApplicationDirectory: NSSearchPathDirectory = 4;
pub const NSSearchPathDirectory_NSLibraryDirectory: NSSearchPathDirectory = 5;
pub const NSSearchPathDirectory_NSDeveloperDirectory: NSSearchPathDirectory = 6;
pub const NSSearchPathDirectory_NSUserDirectory: NSSearchPathDirectory = 7;
pub const NSSearchPathDirectory_NSDocumentationDirectory: NSSearchPathDirectory = 8;
pub const NSSearchPathDirectory_NSDocumentDirectory: NSSearchPathDirectory = 9;
pub const NSSearchPathDirectory_NSCoreServiceDirectory: NSSearchPathDirectory = 10;
pub const NSSearchPathDirectory_NSAutosavedInformationDirectory: NSSearchPathDirectory = 11;
pub const NSSearchPathDirectory_NSDesktopDirectory: NSSearchPathDirectory = 12;
pub const NSSearchPathDirectory_NSCachesDirectory: NSSearchPathDirectory = 13;
pub const NSSearchPathDirectory_NSApplicationSupportDirectory: NSSearchPathDirectory = 14;
pub const NSSearchPathDirectory_NSDownloadsDirectory: NSSearchPathDirectory = 15;
pub const NSSearchPathDirectory_NSInputMethodsDirectory: NSSearchPathDirectory = 16;
pub const NSSearchPathDirectory_NSMoviesDirectory: NSSearchPathDirectory = 17;
pub const NSSearchPathDirectory_NSMusicDirectory: NSSearchPathDirectory = 18;
pub const NSSearchPathDirectory_NSPicturesDirectory: NSSearchPathDirectory = 19;
pub const NSSearchPathDirectory_NSPrinterDescriptionDirectory: NSSearchPathDirectory = 20;
pub const NSSearchPathDirectory_NSSharedPublicDirectory: NSSearchPathDirectory = 21;
pub const NSSearchPathDirectory_NSPreferencePanesDirectory: NSSearchPathDirectory = 22;
pub const NSSearchPathDirectory_NSApplicationScriptsDirectory: NSSearchPathDirectory = 23;
pub const NSSearchPathDirectory_NSItemReplacementDirectory: NSSearchPathDirectory = 99;
pub const NSSearchPathDirectory_NSAllApplicationsDirectory: NSSearchPathDirectory = 100;
pub const NSSearchPathDirectory_NSAllLibrariesDirectory: NSSearchPathDirectory = 101;
pub const NSSearchPathDirectory_NSTrashDirectory: NSSearchPathDirectory = 102;

pub const NSSearchPathDomainMask_NSUserDomainMask: NSSearchPathDomainMask = 1;
pub const NSSearchPathDomainMask_NSLocalDomainMask: NSSearchPathDomainMask = 2;
pub const NSSearchPathDomainMask_NSNetworkDomainMask: NSSearchPathDomainMask = 4;
pub const NSSearchPathDomainMask_NSSystemDomainMask: NSSearchPathDomainMask = 8;
pub const NSSearchPathDomainMask_NSAllDomainsMask: NSSearchPathDomainMask = 65535;

} // verus!
