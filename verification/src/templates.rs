//! The fixed text of the HTML pages, cut at the places where values go.
//! Each group of constants `NAME_0`, `NAME_1`, ... is one template; the
//! page functions put the values between its parts.
use vstd::prelude::*;

verus! {

/// Part of the `BASE` template.
pub const BASE_0: &'static str = r#"<!DOCTYPE html>
<html lang="en">
<head>
    <meta charset="UTF-8">
    <meta name="viewport" content="width=device-width, initial-scale=1.0">
    <title>"#;
/// Part of the `BASE` template.
pub const BASE_1: &'static str = r#" - FastClient</title>
    <link rel="stylesheet" href="/assets/css/app.css">
    <script src="/assets/js/htmx.min.js"></script>
    <script src="/assets/js/htmx-ext-preload.js"></script>
    <script>
        if (localStorage.getItem('theme') === 'dark' || (!localStorage.getItem('theme') && window.matchMedia('(prefers-color-scheme: dark)').matches)) {
            document.documentElement.classList.add('dark');
        }
    </script>
</head>
<body class="bg-gray-50 min-h-screen dark:bg-warm-950" hx-ext="preload">
    "#;
/// Part of the `BASE` template.
pub const BASE_2: &'static str = r#"
    <script src="/assets/js/app.js"></script>
</body>
</html>"#;

/// Part of the `SIDEBAR` template.
pub const SIDEBAR_0: &'static str = r#"<div class="min-h-full flex">
        <!-- Sidebar overlay for mobile -->
        <div id="sidebar-overlay" class="fixed inset-0 bg-gray-600 bg-opacity-75 dark:bg-warm-950 dark:bg-opacity-75 z-20 hidden lg:hidden"></div>

        <!-- Sidebar -->
        <aside id="sidebar" class="fixed inset-y-0 left-0 z-30 w-64 transform -translate-x-full transition-transform duration-300 ease-in-out lg:translate-x-0 lg:flex lg:flex-col bg-white border-r border-gray-200 dark:bg-warm-900 dark:border-warm-700">
            <!-- Logo -->
            <div class="flex h-16 shrink-0 items-center px-6 border-b border-gray-200 dark:border-warm-700">
                <a href="/" class="text-xl font-bold text-gray-900 dark:text-warm-100">
                    FastClient
                </a>
            </div>

            <!-- Navigation -->
            <nav class="flex-1 space-y-1 px-3 py-4">
                <a href="/" class=""#;
/// Part of the `SIDEBAR` template.
pub const SIDEBAR_1: &'static str = r#"">
                    <svg class="h-5 w-5" fill="none" viewBox="0 0 24 24" stroke-width="1.5" stroke="currentColor">
                        <path stroke-linecap="round" stroke-linejoin="round" d="M2.25 12l8.954-8.955c.44-.439 1.152-.439 1.591 0L21.75 12M4.5 9.75v10.125c0 .621.504 1.125 1.125 1.125H9.75v-4.875c0-.621.504-1.125 1.125-1.125h2.25c.621 0 1.125.504 1.125 1.125V21h4.125c.621 0 1.125-.504 1.125-1.125V9.75M8.25 21h8.25" />
                    </svg>
                    Dashboard
                </a>

                <a href="/customers" class=""#;
/// Part of the `SIDEBAR` template.
pub const SIDEBAR_2: &'static str = r#"">
                    <svg class="h-5 w-5" fill="none" viewBox="0 0 24 24" stroke-width="1.5" stroke="currentColor">
                        <path stroke-linecap="round" stroke-linejoin="round" d="M15 19.128a9.38 9.38 0 002.625.372 9.337 9.337 0 004.121-.952 4.125 4.125 0 00-7.533-2.493M15 19.128v-.003c0-1.113-.285-2.16-.786-3.07M15 19.128v.106A12.318 12.318 0 018.624 21c-2.331 0-4.512-.645-6.374-1.766l-.001-.109a6.375 6.375 0 0111.964-3.07M12 6.375a3.375 3.375 0 11-6.75 0 3.375 3.375 0 016.75 0zm8.25 2.25a2.625 2.625 0 11-5.25 0 2.625 2.625 0 015.25 0z" />
                    </svg>
                    Customers
                </a>
            </nav>

            <!-- User section -->
            <div class="border-t border-gray-200 dark:border-warm-700 p-4">
                <div class="flex items-center gap-3">
                    <div class="h-9 w-9 rounded-full bg-gray-200 dark:bg-warm-700 flex items-center justify-center">
                        <span class="text-sm font-medium text-gray-600 dark:text-warm-300">U</span>
                    </div>
                    <div class="flex-1 min-w-0">
                        <p class="text-sm font-medium text-gray-900 dark:text-warm-100 truncate">User</p>
                    </div>
                    <a href="/logout" class="text-gray-400 hover:text-gray-600 dark:text-warm-400 dark:hover:text-warm-200" title="Logout">
                        <svg class="h-5 w-5" fill="none" viewBox="0 0 24 24" stroke-width="1.5" stroke="currentColor">
                            <path stroke-linecap="round" stroke-linejoin="round" d="M15.75 9V5.25A2.25 2.25 0 0013.5 3h-6a2.25 2.25 0 00-2.25 2.25v13.5A2.25 2.25 0 007.5 21h6a2.25 2.25 0 002.25-2.25V15M12 9l-3 3m0 0l3 3m-3-3h12.75" />
                        </svg>
                    </a>
                </div>
            </div>
        </aside>

        <!-- Main content -->
        <div class="flex-1 lg:pl-64">
            <!-- Top bar for mobile -->
            <div class="sticky top-0 z-10 flex h-16 shrink-0 items-center gap-x-4 border-b border-gray-200 dark:border-warm-700 bg-white dark:bg-warm-900 px-4 shadow-sm lg:hidden">
                <button type="button" id="sidebar-toggle" class="-m-2.5 p-2.5 text-gray-700 dark:text-warm-300">
                    <span class="sr-only">Open sidebar</span>
                    <svg class="h-6 w-6" fill="none" viewBox="0 0 24 24" stroke-width="1.5" stroke="currentColor">
                        <path stroke-linecap="round" stroke-linejoin="round" d="M3.75 6.75h16.5M3.75 12h16.5m-16.5 5.25h16.5" />
                    </svg>
                </button>
                <div class="flex-1 text-sm font-semibold text-gray-900 dark:text-warm-100">FastClient</div>
            </div>

            "#;
/// Part of the `SIDEBAR` template.
pub const SIDEBAR_3: &'static str = r#"
        </div>
    </div>"#;

/// Part of the `INDEX_ROW` template.
pub const INDEX_ROW_0: &'static str = r#"<tr class="hover:bg-gray-50 dark:hover:bg-warm-800/50">
                <td class="px-6 py-4 whitespace-nowrap text-sm font-medium text-gray-900 dark:text-warm-100">"#;
/// Part of the `INDEX_ROW` template.
pub const INDEX_ROW_1: &'static str = r#"</td>
                <td class="px-6 py-4 whitespace-nowrap text-sm text-gray-500 dark:text-warm-400">"#;
/// Part of the `INDEX_ROW` template.
pub const INDEX_ROW_2: &'static str = r#"</td>
                <td class="px-6 py-4 whitespace-nowrap text-sm text-gray-500 dark:text-warm-400">"#;
/// Part of the `INDEX_ROW` template.
pub const INDEX_ROW_3: &'static str = r#"</td>
                <td class="px-6 py-4 whitespace-nowrap">"#;
/// Part of the `INDEX_ROW` template.
pub const INDEX_ROW_4: &'static str = r#"</td>
                <td class="px-6 py-4 whitespace-nowrap text-sm text-gray-500 dark:text-warm-400">"#;
/// Part of the `INDEX_ROW` template.
pub const INDEX_ROW_5: &'static str = r#"</td>
                <td class="px-6 py-4 whitespace-nowrap text-sm text-gray-500 dark:text-warm-400">
                    <a href="/customers/"#;
/// Part of the `INDEX_ROW` template.
pub const INDEX_ROW_6: &'static str = r#"" class="text-indigo-600 hover:text-indigo-900 dark:text-indigo-400 dark:hover:text-indigo-300">View</a>
                </td>
            </tr>"#;

/// Part of the `OPTION` template.
pub const OPTION_0: &'static str = r#"<option value=""#;
/// Part of the `OPTION` template.
pub const OPTION_1: &'static str = r#"""#;
/// Part of the `OPTION` template.
pub const OPTION_2: &'static str = r#">"#;
/// Part of the `OPTION` template.
pub const OPTION_3: &'static str = r#"</option>"#;

/// What stands between a status card's label and its count on the customer list.
pub const CARD_COUNT_OPEN: &'static str = r#"</p>
                            <p class="text-xl font-semibold text-gray-900 dark:text-warm-100">"#;
/// What stands between a status card's label and its count on the dashboard.
pub const DASHBOARD_COUNT_OPEN: &'static str = r#"</p>
                                    <p class="text-xl font-semibold text-gray-900 dark:text-warm-100">"#;
/// Part of the `INDEX` template.
pub const INDEX_0: &'static str = r#"<main class="py-6 px-4 sm:px-6 lg:px-8">
        <div class="space-y-6">
            <div class="flex flex-col sm:flex-row sm:items-center sm:justify-between gap-4">
                <div>
                    <h1 class="text-2xl font-bold text-gray-900 dark:text-warm-100">Customers</h1>
                    <p class="mt-1 text-sm text-gray-500 dark:text-warm-400">"#;
/// Part of the `INDEX` template.
pub const INDEX_1: &'static str = r#" total customers</p>
                </div>
                <div class="flex gap-2">
                    <a href="/customers/import" class="btn btn-secondary">Import CSV</a>
                    <a href="/customers/new" class="btn btn-primary">Add Customer</a>
                </div>
            </div>

            <!-- Stats cards -->
            <div class="grid grid-cols-2 gap-4 sm:grid-cols-3 lg:grid-cols-5">
                <a href="/customers" class="card card-status p-4 "#;
/// Part of the `INDEX` template.
pub const INDEX_2: &'static str = r#"">
                    <div class="flex items-center">
                        <div class="flex-shrink-0">
                            <div class="h-10 w-10 rounded-lg bg-blue-100 dark:bg-blue-900/40 flex items-center justify-center">
                                <svg class="h-5 w-5 text-blue-600 dark:text-blue-400" fill="none" viewBox="0 0 24 24" stroke-width="1.5" stroke="currentColor">
                                    <path stroke-linecap="round" stroke-linejoin="round" d="M15 19.128a9.38 9.38 0 002.625.372 9.337 9.337 0 004.121-.952 4.125 4.125 0 00-7.533-2.493M15 19.128v-.003c0-1.113-.285-2.16-.786-3.07M15 19.128v.106A12.318 12.318 0 018.624 21c-2.331 0-4.512-.645-6.374-1.766l-.001-.109a6.375 6.375 0 0111.964-3.07M12 6.375a3.375 3.375 0 11-6.75 0 3.375 3.375 0 016.75 0zm8.25 2.25a2.625 2.625 0 11-5.25 0 2.625 2.625 0 015.25 0z" />
                                </svg>
                            </div>
                        </div>
                        <div class="ml-3">
                            <p class="text-xs font-medium text-gray-500 dark:text-warm-400">Total</p>
                            <p class="text-xl font-semibold text-gray-900 dark:text-warm-100">"#;
/// Part of the `INDEX` template.
pub const INDEX_3: &'static str = r#"</p>
                        </div>
                    </div>
                </a>

                <a href="/customers?status=new" class="card card-status p-4 "#;
/// Part of the `INDEX` template.
pub const INDEX_4: &'static str = r#"">
                    <div class="flex items-center">
                        <div class="flex-shrink-0">
                            <div class="h-10 w-10 rounded-lg bg-green-100 dark:bg-green-900/40 flex items-center justify-center">
                                <svg class="h-5 w-5 text-green-600 dark:text-green-400" fill="none" viewBox="0 0 24 24" stroke-width="1.5" stroke="currentColor">
                                    <path stroke-linecap="round" stroke-linejoin="round" d="M12 9v6m3-3H9m12 0a9 9 0 11-18 0 9 9 0 0118 0z" />
                                </svg>
                            </div>
                        </div>
                        <div class="ml-3">
                            <p class="text-xs font-medium text-gray-500 dark:text-warm-400">"#;
/// Part of the `INDEX` template.
pub const INDEX_5: &'static str = r#"
                        </div>
                    </div>
                </a>

                <a href="/customers?status=contacted" class="card card-status p-4 "#;
/// Part of the `INDEX` template.
pub const INDEX_6: &'static str = r#"">
                    <div class="flex items-center">
                        <div class="flex-shrink-0">
                            <div class="h-10 w-10 rounded-lg bg-blue-100 dark:bg-blue-900/40 flex items-center justify-center">
                                <svg class="h-5 w-5 text-blue-600 dark:text-blue-400" fill="none" viewBox="0 0 24 24" stroke-width="1.5" stroke="currentColor">
                                    <path stroke-linecap="round" stroke-linejoin="round" d="M2.25 6.75c0 8.284 6.716 15 15 15h2.25a2.25 2.25 0 002.25-2.25v-1.372c0-.516-.351-.966-.852-1.091l-4.423-1.106c-.44-.11-.902.055-1.173.417l-.97 1.293c-.282.376-.769.542-1.21.38a12.035 12.035 0 01-7.143-7.143c-.162-.441.004-.928.38-1.21l1.293-.97c.363-.271.527-.734.417-1.173L6.963 3.102a1.125 1.125 0 00-1.091-.852H4.5A2.25 2.25 0 002.25 4.5v2.25z" />
                                </svg>
                            </div>
                        </div>
                        <div class="ml-3">
                            <p class="text-xs font-medium text-gray-500 dark:text-warm-400">"#;
/// Part of the `INDEX` template.
pub const INDEX_7: &'static str = r#"
                        </div>
                    </div>
                </a>

                <a href="/customers?status=callback" class="card card-status p-4 "#;
/// Part of the `INDEX` template.
pub const INDEX_8: &'static str = r#"">
                    <div class="flex items-center">
                        <div class="flex-shrink-0">
                            <div class="h-10 w-10 rounded-lg bg-yellow-100 dark:bg-yellow-900/40 flex items-center justify-center">
                                <svg class="h-5 w-5 text-yellow-600 dark:text-yellow-400" fill="none" viewBox="0 0 24 24" stroke-width="1.5" stroke="currentColor">
                                    <path stroke-linecap="round" stroke-linejoin="round" d="M12 6v6h4.5m4.5 0a9 9 0 11-18 0 9 9 0 0118 0z" />
                                </svg>
                            </div>
                        </div>
                        <div class="ml-3">
                            <p class="text-xs font-medium text-gray-500 dark:text-warm-400">"#;
/// Part of the `INDEX` template.
pub const INDEX_9: &'static str = r#"
                        </div>
                    </div>
                </a>

                <a href="/customers?status=follow_up" class="card card-status p-4 "#;
/// Part of the `INDEX` template.
pub const INDEX_10: &'static str = r#"">
                    <div class="flex items-center">
                        <div class="flex-shrink-0">
                            <div class="h-10 w-10 rounded-lg bg-purple-100 dark:bg-purple-900/40 flex items-center justify-center">
                                <svg class="h-5 w-5 text-purple-600 dark:text-purple-400" fill="none" viewBox="0 0 24 24" stroke-width="1.5" stroke="currentColor">
                                    <path stroke-linecap="round" stroke-linejoin="round" d="M19.5 12c0-1.232-.046-2.453-.138-3.662a4.006 4.006 0 00-3.7-3.7 48.678 48.678 0 00-7.324 0 4.006 4.006 0 00-3.7 3.7c-.017.22-.032.441-.046.662M19.5 12l3-3m-3 3l-3-3m-12 3c0 1.232.046 2.453.138 3.662a4.006 4.006 0 003.7 3.7 48.656 48.656 0 007.324 0 4.006 4.006 0 003.7-3.7c.017-.22.032-.441.046-.662M4.5 12l3 3m-3-3l-3 3" />
                                </svg>
                            </div>
                        </div>
                        <div class="ml-3">
                            <p class="text-xs font-medium text-gray-500 dark:text-warm-400">"#;
/// Part of the `INDEX` template.
pub const INDEX_11: &'static str = r#"
                        </div>
                    </div>
                </a>
            </div>

            <!-- Filters -->
            <div class="card p-4">
                <form class="flex flex-col sm:flex-row gap-4">
                    <div class="flex-1">
                        <input type="search" name="q" placeholder="Search customers..." value=""#;
/// Part of the `INDEX` template.
pub const INDEX_12: &'static str = r#"" class="form-input">
                    </div>
                    <div class="sm:w-48">
                        <select name="status" class="form-input" onchange="this.form.submit()">
                            <option value="">All Statuses</option>
                            "#;
/// Part of the `INDEX` template.
pub const INDEX_13: &'static str = r#"
                        </select>
                    </div>
                </form>
            </div>

            <!-- Customer list -->
            <div class="card overflow-hidden">
                <table class="min-w-full divide-y divide-gray-200 dark:divide-warm-700">
                    <thead class="bg-gray-50 dark:bg-warm-900">
                        <tr>
                            <th class="px-6 py-3 text-left text-xs font-medium text-gray-500 uppercase dark:text-warm-400">Name</th>
                            <th class="px-6 py-3 text-left text-xs font-medium text-gray-500 uppercase dark:text-warm-400">Email</th>
                            <th class="px-6 py-3 text-left text-xs font-medium text-gray-500 uppercase dark:text-warm-400">Phone</th>
                            <th class="px-6 py-3 text-left text-xs font-medium text-gray-500 uppercase dark:text-warm-400">Status</th>
                            <th class="px-6 py-3 text-left text-xs font-medium text-gray-500 uppercase dark:text-warm-400">Created</th>
                            <th class="px-6 py-3 text-left text-xs font-medium text-gray-500 uppercase dark:text-warm-400">Actions</th>
                        </tr>
                    </thead>
                    <tbody class="bg-white dark:bg-warm-800 divide-y divide-gray-200 dark:divide-warm-700">
                        "#;
/// Part of the `INDEX` template.
pub const INDEX_14: &'static str = r#"
                    </tbody>
                </table>
            </div>
        </div>
    </main>"#;

/// Part of the `CREATE_CONTENT` template.
pub const CREATE_CONTENT: &'static str = r#"
    <main class="py-6 px-4 sm:px-6 lg:px-8">
        <div class="card p-6">
            <h3 class="text-lg font-medium text-gray-900 dark:text-warm-100 mb-4">Add New Customer</h3>
            <form method="post" action="/customers" class="space-y-6">
                <div class="grid grid-cols-1 gap-6 sm:grid-cols-2">
                    <div class="sm:col-span-2">
                        <label class="form-label">Name *</label>
                        <input type="text" name="name" required class="form-input">
                    </div>
                    <div>
                        <label class="form-label">Email</label>
                        <input type="email" name="email" class="form-input">
                    </div>
                    <div>
                        <label class="form-label">Phone *</label>
                        <input type="tel" name="phone" required class="form-input">
                    </div>
                    <div>
                        <label class="form-label">Website</label>
                        <input type="url" name="website" class="form-input">
                    </div>
                    <div>
                        <label class="form-label">City *</label>
                        <input type="text" name="city" required class="form-input">
                    </div>
                    <div>
                        <label class="form-label">State *</label>
                        <input type="text" name="state" required class="form-input">
                    </div>
                    <div>
                        <label class="form-label">Industry</label>
                        <input type="text" name="industry" class="form-input">
                    </div>
                </div>
                <div class="flex justify-end gap-3">
                    <a href="/customers" class="btn btn-secondary">Cancel</a>
                    <button type="submit" class="btn btn-primary">Create Customer</button>
                </div>
            </form>
        </div>
    </main>"#;

/// Part of the `NOT_FOUND_CONTENT` template.
pub const NOT_FOUND_CONTENT: &'static str = r#"<main class="py-6 px-4 sm:px-6 lg:px-8">
                <div class="card p-6 text-center">
                    <h2 class="text-xl font-bold text-gray-900 dark:text-warm-100 mb-2">Customer Not Found</h2>
                    <p class="text-gray-500 dark:text-warm-400 mb-4">The customer you're looking for doesn't exist.</p>
                    <a href="/customers" class="btn btn-primary">Back to Customers</a>
                </div>
            </main>"#;

/// Part of the `NOTE_ITEM` template.
pub const NOTE_ITEM_0: &'static str = r#"<div class="py-2 border-b border-gray-200 dark:border-warm-700 last:border-0">
                <p class="text-sm text-gray-800 dark:text-warm-200">"#;
/// Part of the `NOTE_ITEM` template.
pub const NOTE_ITEM_1: &'static str = r#"</p>
                <p class="text-xs text-gray-500 dark:text-warm-500">"#;
/// Part of the `NOTE_ITEM` template.
pub const NOTE_ITEM_2: &'static str = r#"</p>
            </div>"#;

/// Part of the `REVIEW_BADGE` template.
pub const REVIEW_BADGE_0: &'static str = r#"<div class="mt-2 p-2 bg-yellow-50 dark:bg-yellow-900/30 border border-yellow-200 dark:border-yellow-800 rounded text-xs text-yellow-800 dark:text-yellow-200">
            <strong>Needs Review:</strong> "#;
/// Part of the `REVIEW_BADGE` template.
pub const REVIEW_BADGE_1: &'static str = r#"
            <form method="post" action="/customers/"#;
/// Part of the `REVIEW_BADGE` template.
pub const REVIEW_BADGE_2: &'static str = r#"/clear-review" class="inline ml-2">
                <button type="submit" class="underline hover:no-underline">Dismiss</button>
            </form>
        </div>"#;

/// Part of the `SHOW` template.
pub const SHOW_0: &'static str = r#"<main class="py-6 px-4 sm:px-6 lg:px-8">
        <div class="mb-4">
            <a href="/customers" class="text-indigo-600 hover:text-indigo-900 dark:text-indigo-400 dark:hover:text-indigo-300 text-sm">&larr; Back to Customers</a>
        </div>
        <div class="grid grid-cols-1 lg:grid-cols-3 gap-6">
            <div class="lg:col-span-2">
                <div class="card p-6">
                    <div class="flex justify-between items-start mb-4">
                        <h3 class="text-lg font-medium text-gray-900 dark:text-warm-100">"#;
/// Part of the `SHOW` template.
pub const SHOW_1: &'static str = r#"</h3>
                        <a href="/customers/"#;
/// Part of the `SHOW` template.
pub const SHOW_2: &'static str = r#"/edit" class="btn btn-secondary text-sm">Edit</a>
                    </div>
                    "#;
/// Part of the `SHOW` template.
pub const SHOW_3: &'static str = r#"
                    <dl class="grid grid-cols-1 sm:grid-cols-2 gap-x-6 gap-y-4">
                        <div>
                            <dt class="text-sm font-medium text-gray-500 dark:text-warm-500">Email</dt>
                            <dd class="text-sm text-gray-900 dark:text-warm-200">"#;
/// Part of the `SHOW` template.
pub const SHOW_4: &'static str = r#"</dd>
                        </div>
                        <div>
                            <dt class="text-sm font-medium text-gray-500 dark:text-warm-500">Phone</dt>
                            <dd class="text-sm text-gray-900 dark:text-warm-200">"#;
/// Part of the `SHOW` template.
pub const SHOW_5: &'static str = r#"</dd>
                        </div>
                        <div>
                            <dt class="text-sm font-medium text-gray-500 dark:text-warm-500">Website</dt>
                            <dd class="text-sm text-gray-900 dark:text-warm-200">"#;
/// Part of the `SHOW` template.
pub const SHOW_6: &'static str = r#"</dd>
                        </div>
                        <div>
                            <dt class="text-sm font-medium text-gray-500 dark:text-warm-500">City</dt>
                            <dd class="text-sm text-gray-900 dark:text-warm-200">"#;
/// Part of the `SHOW` template.
pub const SHOW_7: &'static str = r#"</dd>
                        </div>
                        <div>
                            <dt class="text-sm font-medium text-gray-500 dark:text-warm-500">State</dt>
                            <dd class="text-sm text-gray-900 dark:text-warm-200">"#;
/// Part of the `SHOW` template.
pub const SHOW_8: &'static str = r#"</dd>
                        </div>
                        <div>
                            <dt class="text-sm font-medium text-gray-500 dark:text-warm-500">Industry</dt>
                            <dd class="text-sm text-gray-900 dark:text-warm-200">"#;
/// Part of the `SHOW` template.
pub const SHOW_9: &'static str = r#"</dd>
                        </div>
                        <div>
                            <dt class="text-sm font-medium text-gray-500 dark:text-warm-500">Status</dt>
                            <dd class="mt-1" id="status-badge-"#;
/// Part of the `SHOW` template.
pub const SHOW_10: &'static str = r#"">"#;
/// Part of the `SHOW` template.
pub const SHOW_11: &'static str = r#"</dd>
                        </div>
                    </dl>
                </div>
            </div>
            <div>
                <div class="card p-6">
                    <h3 class="text-lg font-medium text-gray-900 dark:text-warm-100 mb-4">Notes</h3>
                    <div id="notes-list">"#;
/// Part of the `SHOW` template.
pub const SHOW_12: &'static str = r#"</div>
                    <form method="post" action="/customers/"#;
/// Part of the `SHOW` template.
pub const SHOW_13: &'static str = r#"/notes" class="mt-4 space-y-3">
                        <textarea name="body" rows="3" required placeholder="Add a note..." class="form-input"></textarea>
                        <button type="submit" class="btn btn-primary w-full">Add Note</button>
                    </form>
                </div>
            </div>
        </div>
    </main>"#;

/// Part of the `EDIT` template.
pub const EDIT_0: &'static str = r#"<main class="py-6 px-4 sm:px-6 lg:px-8">
        <div class="mb-4">
            <a href="/customers/"#;
/// Part of the `EDIT` template.
pub const EDIT_1: &'static str = r#"" class="text-indigo-600 hover:text-indigo-900 dark:text-indigo-400 dark:hover:text-indigo-300 text-sm">&larr; Back to Customer</a>
        </div>
        <div class="card p-6">
            <h3 class="text-lg font-medium text-gray-900 dark:text-warm-100 mb-4">Edit Customer</h3>
            <form method="post" action="/customers/"#;
/// Part of the `EDIT` template.
pub const EDIT_2: &'static str = r#"" class="space-y-6">
                <input type="hidden" name="_method" value="PUT">
                <div class="grid grid-cols-1 gap-6 sm:grid-cols-2">
                    <div class="sm:col-span-2">
                        <label class="form-label">Name *</label>
                        <input type="text" name="name" value=""#;
/// Part of the `EDIT` template.
pub const EDIT_3: &'static str = r#"" required class="form-input">
                    </div>
                    <div>
                        <label class="form-label">Email</label>
                        <input type="email" name="email" value=""#;
/// Part of the `EDIT` template.
pub const EDIT_4: &'static str = r#"" class="form-input">
                    </div>
                    <div>
                        <label class="form-label">Phone *</label>
                        <input type="tel" name="phone" value=""#;
/// Part of the `EDIT` template.
pub const EDIT_5: &'static str = r#"" required class="form-input">
                    </div>
                    <div>
                        <label class="form-label">Website</label>
                        <input type="url" name="website" value=""#;
/// Part of the `EDIT` template.
pub const EDIT_6: &'static str = r#"" class="form-input">
                    </div>
                    <div>
                        <label class="form-label">City *</label>
                        <input type="text" name="city" value=""#;
/// Part of the `EDIT` template.
pub const EDIT_7: &'static str = r#"" required class="form-input">
                    </div>
                    <div>
                        <label class="form-label">State *</label>
                        <input type="text" name="state" value=""#;
/// Part of the `EDIT` template.
pub const EDIT_8: &'static str = r#"" required class="form-input">
                    </div>
                    <div>
                        <label class="form-label">Industry</label>
                        <input type="text" name="industry" value=""#;
/// Part of the `EDIT` template.
pub const EDIT_9: &'static str = r#"" class="form-input">
                    </div>
                    <div>
                        <label class="form-label">Status</label>
                        <select name="status" class="form-input">
                            "#;
/// Part of the `EDIT` template.
pub const EDIT_10: &'static str = r#"
                        </select>
                    </div>
                </div>
                <div class="flex justify-end gap-3">
                    <a href="/customers/"#;
/// Part of the `EDIT` template.
pub const EDIT_11: &'static str = r#"" class="btn btn-secondary">Cancel</a>
                    <button type="submit" class="btn btn-primary">Update Customer</button>
                </div>
            </form>
        </div>
    </main>"#;

/// Part of the `CUSTOMER_REFRESH` template.
pub const CUSTOMER_REFRESH_0: &'static str = r#"<!DOCTYPE html>
<html>
<head><meta http-equiv="refresh" content="0;url=/customers/"#;
/// Part of the `CUSTOMER_REFRESH` template.
pub const CUSTOMER_REFRESH_1: &'static str = r#""></head>
<body><a href="/customers/"#;
/// Part of the `CUSTOMER_REFRESH` template.
pub const CUSTOMER_REFRESH_2: &'static str = r#"">Redirect</a></body>
</html>"#;

/// Part of the `CUSTOMERS_REFRESH` template.
pub const CUSTOMERS_REFRESH: &'static str = r#"<!DOCTYPE html>
<html>
<head><meta http-equiv="refresh" content="0;url=/customers"></head>
<body><a href="/customers">Redirect</a></body>
</html>"#;

/// Part of the `DASHBOARD_ROW` template.
pub const DASHBOARD_ROW_0: &'static str = r#"<tr class="hover:bg-gray-50 dark:hover:bg-warm-700/50">
                <td class="px-6 py-4 whitespace-nowrap text-sm font-medium text-gray-900 dark:text-warm-100">"#;
/// Part of the `DASHBOARD_ROW` template.
pub const DASHBOARD_ROW_1: &'static str = r#"</td>
                <td class="px-6 py-4 whitespace-nowrap text-sm text-gray-500 dark:text-warm-400">"#;
/// Part of the `DASHBOARD_ROW` template.
pub const DASHBOARD_ROW_2: &'static str = r#"</td>
                <td class="px-6 py-4 whitespace-nowrap text-sm text-gray-500 dark:text-warm-400">"#;
/// Part of the `DASHBOARD_ROW` template.
pub const DASHBOARD_ROW_3: &'static str = r#"</td>
                <td class="px-6 py-4 whitespace-nowrap">"#;
/// Part of the `DASHBOARD_ROW` template.
pub const DASHBOARD_ROW_4: &'static str = r#"</td>
                <td class="px-6 py-4 whitespace-nowrap text-sm text-gray-500 dark:text-warm-400">"#;
/// Part of the `DASHBOARD_ROW` template.
pub const DASHBOARD_ROW_5: &'static str = r#"</td>
            </tr>"#;

/// Part of the `DASHBOARD` template.
pub const DASHBOARD_0: &'static str = r#"<!DOCTYPE html>
<html lang="en" class="h-full">
<head>
    <meta charset="UTF-8">
    <title>Dashboard - FastClient</title>
    <link rel="stylesheet" href="/assets/css/app.css">
    <script src="/assets/js/htmx.min.js"></script>
    <script src="/assets/js/htmx-ext-preload.js"></script>
    <script>
        if (localStorage.getItem('theme') === 'dark' || (!localStorage.getItem('theme') && window.matchMedia('(prefers-color-scheme: dark)').matches)) {
            document.documentElement.classList.add('dark');
        }
    </script>
</head>
<body class="h-full dark:bg-warm-950" hx-ext="preload">
    <div class="min-h-full flex">
        <!-- Sidebar overlay for mobile -->
        <div id="sidebar-overlay" class="fixed inset-0 bg-gray-600 bg-opacity-75 dark:bg-warm-950 dark:bg-opacity-75 z-20 hidden lg:hidden"></div>

        <!-- Sidebar -->
        <aside id="sidebar" class="fixed inset-y-0 left-0 z-30 w-64 transform -translate-x-full transition-transform duration-300 ease-in-out lg:translate-x-0 lg:flex lg:flex-col bg-white border-r border-gray-200 dark:bg-warm-900 dark:border-warm-700">
            <!-- Logo -->
            <div class="flex h-16 shrink-0 items-center px-6 border-b border-gray-200 dark:border-warm-700">
                <a href="/" class="text-xl font-bold text-gray-900 dark:text-warm-100">
                    FastClient
                </a>
            </div>

            <!-- Navigation -->
            <nav class="flex-1 space-y-1 px-3 py-4">
                <a href="/" class="sidebar-link sidebar-link-active">
                    <svg class="h-5 w-5" fill="none" viewBox="0 0 24 24" stroke-width="1.5" stroke="currentColor">
                        <path stroke-linecap="round" stroke-linejoin="round" d="M2.25 12l8.954-8.955c.44-.439 1.152-.439 1.591 0L21.75 12M4.5 9.75v10.125c0 .621.504 1.125 1.125 1.125H9.75v-4.875c0-.621.504-1.125 1.125-1.125h2.25c.621 0 1.125.504 1.125 1.125V21h4.125c.621 0 1.125-.504 1.125-1.125V9.75M8.25 21h8.25" />
                    </svg>
                    Dashboard
                </a>

                <a href="/customers" class="sidebar-link">
                    <svg class="h-5 w-5" fill="none" viewBox="0 0 24 24" stroke-width="1.5" stroke="currentColor">
                        <path stroke-linecap="round" stroke-linejoin="round" d="M15 19.128a9.38 9.38 0 002.625.372 9.337 9.337 0 004.121-.952 4.125 4.125 0 00-7.533-2.493M15 19.128v-.003c0-1.113-.285-2.16-.786-3.07M15 19.128v.106A12.318 12.318 0 018.624 21c-2.331 0-4.512-.645-6.374-1.766l-.001-.109a6.375 6.375 0 0111.964-3.07M12 6.375a3.375 3.375 0 11-6.75 0 3.375 3.375 0 016.75 0zm8.25 2.25a2.625 2.625 0 11-5.25 0 2.625 2.625 0 015.25 0z" />
                    </svg>
                    Customers
                </a>
            </nav>

            <!-- User section -->
            <div class="border-t border-gray-200 dark:border-warm-700 p-4">
                <div class="flex items-center gap-3">
                    <div class="h-9 w-9 rounded-full bg-gray-200 dark:bg-warm-700 flex items-center justify-center">
                        <span class="text-sm font-medium text-gray-600 dark:text-warm-300">U</span>
                    </div>
                    <div class="flex-1 min-w-0">
                        <p class="text-sm font-medium text-gray-900 dark:text-warm-100 truncate">User</p>
                    </div>
                    <a href="/logout" class="text-gray-400 hover:text-gray-600 dark:text-warm-400 dark:hover:text-warm-200" title="Logout">
                        <svg class="h-5 w-5" fill="none" viewBox="0 0 24 24" stroke-width="1.5" stroke="currentColor">
                            <path stroke-linecap="round" stroke-linejoin="round" d="M15.75 9V5.25A2.25 2.25 0 0013.5 3h-6a2.25 2.25 0 00-2.25 2.25v13.5A2.25 2.25 0 007.5 21h6a2.25 2.25 0 002.25-2.25V15M12 9l-3 3m0 0l3 3m-3-3h12.75" />
                        </svg>
                    </a>
                </div>
            </div>
        </aside>

        <!-- Main content -->
        <div class="flex-1 lg:pl-64">
            <!-- Top bar for mobile -->
            <div class="sticky top-0 z-10 flex h-16 shrink-0 items-center gap-x-4 border-b border-gray-200 dark:border-warm-700 bg-white dark:bg-warm-900 px-4 shadow-sm lg:hidden">
                <button type="button" id="sidebar-toggle" class="-m-2.5 p-2.5 text-gray-700 dark:text-warm-300">
                    <span class="sr-only">Open sidebar</span>
                    <svg class="h-6 w-6" fill="none" viewBox="0 0 24 24" stroke-width="1.5" stroke="currentColor">
                        <path stroke-linecap="round" stroke-linejoin="round" d="M3.75 6.75h16.5M3.75 12h16.5m-16.5 5.25h16.5" />
                    </svg>
                </button>
                <div class="flex-1 text-sm font-semibold text-gray-900 dark:text-warm-100">FastClient</div>
            </div>

            <main class="py-6 px-4 sm:px-6 lg:px-8">
                <div class="space-y-6">
                    <div>
                        <h1 class="text-2xl font-bold text-gray-900 dark:text-warm-100">Dashboard</h1>
                        <p class="mt-1 text-sm text-gray-500 dark:text-warm-400">Welcome back!</p>
                    </div>

                    <!-- Stats cards -->
                    <div class="grid grid-cols-2 gap-4 sm:grid-cols-3 lg:grid-cols-5">
                        <a href="/customers" class="card card-status p-4">
                            <div class="flex items-center">
                                <div class="flex-shrink-0">
                                    <div class="h-10 w-10 rounded-lg bg-blue-100 dark:bg-blue-900/40 flex items-center justify-center">
                                        <svg class="h-5 w-5 text-blue-600 dark:text-blue-400" fill="none" viewBox="0 0 24 24" stroke-width="1.5" stroke="currentColor">
                                            <path stroke-linecap="round" stroke-linejoin="round" d="M15 19.128a9.38 9.38 0 002.625.372 9.337 9.337 0 004.121-.952 4.125 4.125 0 00-7.533-2.493M15 19.128v-.003c0-1.113-.285-2.16-.786-3.07M15 19.128v.106A12.318 12.318 0 018.624 21c-2.331 0-4.512-.645-6.374-1.766l-.001-.109a6.375 6.375 0 0111.964-3.07M12 6.375a3.375 3.375 0 11-6.75 0 3.375 3.375 0 016.75 0zm8.25 2.25a2.625 2.625 0 11-5.25 0 2.625 2.625 0 015.25 0z" />
                                        </svg>
                                    </div>
                                </div>
                                <div class="ml-3">
                                    <p class="text-xs font-medium text-gray-500 dark:text-warm-400">Total</p>
                                    <p class="text-xl font-semibold text-gray-900 dark:text-warm-100">"#;
/// Part of the `DASHBOARD` template.
pub const DASHBOARD_1: &'static str = r#"</p>
                                </div>
                            </div>
                        </a>

                        <a href="/customers?status=new" class="card card-status p-4">
                            <div class="flex items-center">
                                <div class="flex-shrink-0">
                                    <div class="h-10 w-10 rounded-lg bg-green-100 dark:bg-green-900/40 flex items-center justify-center">
                                        <svg class="h-5 w-5 text-green-600 dark:text-green-400" fill="none" viewBox="0 0 24 24" stroke-width="1.5" stroke="currentColor">
                                            <path stroke-linecap="round" stroke-linejoin="round" d="M12 9v6m3-3H9m12 0a9 9 0 11-18 0 9 9 0 0118 0z" />
                                        </svg>
                                    </div>
                                </div>
                                <div class="ml-3">
                                    <p class="text-xs font-medium text-gray-500 dark:text-warm-400">"#;
/// Part of the `DASHBOARD` template.
pub const DASHBOARD_2: &'static str = r#"
                                </div>
                            </div>
                        </a>

                        <a href="/customers?status=contacted" class="card card-status p-4">
                            <div class="flex items-center">
                                <div class="flex-shrink-0">
                                    <div class="h-10 w-10 rounded-lg bg-blue-100 dark:bg-blue-900/40 flex items-center justify-center">
                                        <svg class="h-5 w-5 text-blue-600 dark:text-blue-400" fill="none" viewBox="0 0 24 24" stroke-width="1.5" stroke="currentColor">
                                            <path stroke-linecap="round" stroke-linejoin="round" d="M2.25 6.75c0 8.284 6.716 15 15 15h2.25a2.25 2.25 0 002.25-2.25v-1.372c0-.516-.351-.966-.852-1.091l-4.423-1.106c-.44-.11-.902.055-1.173.417l-.97 1.293c-.282.376-.769.542-1.21.38a12.035 12.035 0 01-7.143-7.143c-.162-.441.004-.928.38-1.21l1.293-.97c.363-.271.527-.734.417-1.173L6.963 3.102a1.125 1.125 0 00-1.091-.852H4.5A2.25 2.25 0 002.25 4.5v2.25z" />
                                        </svg>
                                    </div>
                                </div>
                                <div class="ml-3">
                                    <p class="text-xs font-medium text-gray-500 dark:text-warm-400">"#;
/// Part of the `DASHBOARD` template.
pub const DASHBOARD_3: &'static str = r#"
                                </div>
                            </div>
                        </a>

                        <a href="/customers?status=callback" class="card card-status p-4">
                            <div class="flex items-center">
                                <div class="flex-shrink-0">
                                    <div class="h-10 w-10 rounded-lg bg-yellow-100 dark:bg-yellow-900/40 flex items-center justify-center">
                                        <svg class="h-5 w-5 text-yellow-600 dark:text-yellow-400" fill="none" viewBox="0 0 24 24" stroke-width="1.5" stroke="currentColor">
                                            <path stroke-linecap="round" stroke-linejoin="round" d="M12 6v6h4.5m4.5 0a9 9 0 11-18 0 9 9 0 0118 0z" />
                                        </svg>
                                    </div>
                                </div>
                                <div class="ml-3">
                                    <p class="text-xs font-medium text-gray-500 dark:text-warm-400">"#;
/// Part of the `DASHBOARD` template.
pub const DASHBOARD_4: &'static str = r#"
                                </div>
                            </div>
                        </a>

                        <a href="/customers?status=follow_up" class="card card-status p-4">
                            <div class="flex items-center">
                                <div class="flex-shrink-0">
                                    <div class="h-10 w-10 rounded-lg bg-purple-100 dark:bg-purple-900/40 flex items-center justify-center">
                                        <svg class="h-5 w-5 text-purple-600 dark:text-purple-400" fill="none" viewBox="0 0 24 24" stroke-width="1.5" stroke="currentColor">
                                            <path stroke-linecap="round" stroke-linejoin="round" d="M19.5 12c0-1.232-.046-2.453-.138-3.662a4.006 4.006 0 00-3.7-3.7 48.678 48.678 0 00-7.324 0 4.006 4.006 0 00-3.7 3.7c-.017.22-.032.441-.046.662M19.5 12l3-3m-3 3l-3-3m-12 3c0 1.232.046 2.453.138 3.662a4.006 4.006 0 003.7 3.7 48.656 48.656 0 007.324 0 4.006 4.006 0 003.7-3.7c.017-.22.032-.441.046-.662M4.5 12l3 3m-3-3l-3 3" />
                                        </svg>
                                    </div>
                                </div>
                                <div class="ml-3">
                                    <p class="text-xs font-medium text-gray-500 dark:text-warm-400">"#;
/// Part of the `DASHBOARD` template.
pub const DASHBOARD_5: &'static str = r#"
                                </div>
                            </div>
                        </a>
                    </div>

                    <!-- Quick actions -->
                    <div class="card p-6">
                        <h2 class="text-lg font-medium text-gray-900 dark:text-warm-100 mb-4">Quick Actions</h2>
                        <div class="flex flex-wrap gap-3">
                            <a href="/customers/new" class="btn btn-primary">
                                <svg class="h-4 w-4 mr-2" fill="none" viewBox="0 0 24 24" stroke-width="1.5" stroke="currentColor">
                                    <path stroke-linecap="round" stroke-linejoin="round" d="M12 4.5v15m7.5-7.5h-15" />
                                </svg>
                                Add Customer
                            </a>
                            <a href="/customers" class="btn btn-secondary">View All Customers</a>
                        </div>
                    </div>

                    <!-- Recent Customers -->
                    <div class="card overflow-hidden">
                        <div class="px-4 py-5 sm:p-6">
                            <h3 class="text-lg font-medium text-gray-900 dark:text-warm-100 mb-4">Recent Customers</h3>
                            <table class="min-w-full divide-y divide-gray-200 dark:divide-warm-700">
                                <thead class="bg-gray-50 dark:bg-warm-900">
                                    <tr>
                                        <th class="px-6 py-3 text-left text-xs font-medium text-gray-500 uppercase dark:text-warm-400">Name</th>
                                        <th class="px-6 py-3 text-left text-xs font-medium text-gray-500 uppercase dark:text-warm-400">Email</th>
                                        <th class="px-6 py-3 text-left text-xs font-medium text-gray-500 uppercase dark:text-warm-400">Phone</th>
                                        <th class="px-6 py-3 text-left text-xs font-medium text-gray-500 uppercase dark:text-warm-400">Status</th>
                                        <th class="px-6 py-3 text-left text-xs font-medium text-gray-500 uppercase dark:text-warm-400">Created</th>
                                    </tr>
                                </thead>
                                <tbody class="bg-white dark:bg-warm-800 divide-y divide-gray-200 dark:divide-warm-700">
                                    "#;
/// Part of the `DASHBOARD` template.
pub const DASHBOARD_6: &'static str = r#"
                                </tbody>
                            </table>
                        </div>
                    </div>
                </div>
            </main>
        </div>
    </div>
    <script src="/assets/js/app.js"></script>
</body>
</html>"#;

/// Part of the `IMPORT_CONTENT` template.
pub const IMPORT_CONTENT: &'static str = r#"
    <main class="max-w-3xl mx-auto px-4 sm:px-6 lg:px-8 py-8">
        <div class="mb-4">
            <a href="/customers" class="text-indigo-600 hover:text-indigo-900 dark:text-indigo-400 dark:hover:text-indigo-300 text-sm">&larr; Back to Customers</a>
        </div>
        <div class="card p-6">
            <h3 class="text-lg font-medium text-gray-900 dark:text-warm-100 mb-4">Import Customers from CSV</h3>
            <form method="post" action="/customers/import" enctype="multipart/form-data" class="space-y-6">
                <div>
                    <label class="form-label">CSV File</label>
                    <input type="file" name="csv_file" accept=".csv" required class="form-input">
                </div>
                <div class="bg-gray-50 dark:bg-warm-900 p-4 rounded-md">
                    <h4 class="text-sm font-medium text-gray-700 dark:text-warm-200 mb-2">Required Columns:</h4>
                    <p class="text-sm text-gray-500 dark:text-warm-400">name, phone, city, state</p>
                    <p class="text-sm text-gray-500 dark:text-warm-400 mt-1">Optional: email, website, industry, status</p>
                </div>
                <div class="flex justify-end gap-3">
                    <a href="/customers" class="btn btn-secondary">Cancel</a>
                    <button type="submit" class="btn btn-primary">Import Customers</button>
                </div>
            </form>
        </div>
    </main>"#;

/// Part of the `IMPORT_NAV` template.
pub const IMPORT_NAV: &'static str = r#"<nav class="bg-white shadow-sm border-b dark:bg-warm-900 dark:border-warm-700">
        <div class="max-w-7xl mx-auto px-4 sm:px-6 lg:px-8 flex h-16 items-center justify-between">
            <div class="flex items-center gap-4">
                <h1 class="text-xl font-bold text-indigo-600 dark:text-indigo-400">FastClient</h1>
                <a href="/customers" class="text-gray-600 hover:text-gray-900 dark:text-warm-300 dark:hover:text-warm-100 text-sm">Customers</a>
            </div>
            <a href="/logout" class="text-gray-600 hover:text-gray-900 dark:text-warm-300 dark:hover:text-warm-100 text-sm">Logout</a>
        </div>
    </nav>"#;

/// Part of the `IMPORT_DOC` template.
pub const IMPORT_DOC_0: &'static str = r#"<!DOCTYPE html>
<html lang="en">
<head>
    <meta charset="UTF-8">
    <meta name="viewport" content="width=device-width, initial-scale=1.0">
    <title>Import Customers - FastClient</title>
    <link rel="stylesheet" href="/assets/css/app.css">
    <script src="/assets/js/htmx.min.js"></script>
    <script>
        if (localStorage.getItem('theme') === 'dark' || (!localStorage.getItem('theme') && window.matchMedia('(prefers-color-scheme: dark)').matches)) {
            document.documentElement.classList.add('dark');
        }
    </script>
</head>
<body class="bg-gray-50 min-h-screen dark:bg-warm-950">
    "#;
/// Part of the `IMPORT_DOC` template.
pub const IMPORT_DOC_1: &'static str = r#"
    "#;
/// Part of the `IMPORT_DOC` template.
pub const IMPORT_DOC_2: &'static str = r#"
    <script src="/assets/js/app.js"></script>
</body>
</html>"#;

/// Part of the `NOTE_LIST_ITEM` template.
pub const NOTE_LIST_ITEM_0: &'static str = r#"<div class="py-2 border-b border-gray-200">
                        <p class="text-sm text-gray-800">"#;
/// Part of the `NOTE_LIST_ITEM` template.
pub const NOTE_LIST_ITEM_1: &'static str = r#"</p>
                        <p class="text-xs text-gray-500">"#;
/// Part of the `NOTE_LIST_ITEM` template.
pub const NOTE_LIST_ITEM_2: &'static str = r#"</p>
                    </div>"#;

/// Part of the `LOGIN_PAGE` template.
pub const LOGIN_PAGE: &'static str = r#"
<!DOCTYPE html>
<html lang="en">
<head>
    <meta charset="UTF-8">
    <meta name="viewport" content="width=device-width, initial-scale=1.0">
    <title>Login - FastClient</title>
    <link rel="stylesheet" href="/assets/css/app.css">
    <script src="/assets/js/htmx.min.js"></script>
    <script src="/assets/js/htmx-ext-preload.js"></script>
    <script>
        if (localStorage.getItem('theme') === 'dark' || (!localStorage.getItem('theme') && window.matchMedia('(prefers-color-scheme: dark)').matches)) {
            document.documentElement.classList.add('dark');
        }
    </script>
</head>
<body class="bg-gray-50 min-h-screen dark:bg-warm-950" hx-ext="preload">
    <div class="flex min-h-full flex-col justify-center py-12 px-4 sm:px-6 lg:px-8">
        <div class="sm:mx-auto sm:w-full sm:max-w-md">
            <h1 class="text-center text-3xl font-bold tracking-tight text-gray-900 dark:text-warm-100">FastClient</h1>
            <h2 class="mt-2 text-center text-lg text-gray-600 dark:text-warm-400">Sign in to your account</h2>
        </div>
        <div class="mt-6 sm:mx-auto sm:w-full sm:max-w-md">
            <div class="bg-white dark:bg-warm-800 py-8 px-4 shadow-lg sm:rounded-xl sm:px-10">
                <form action="/login" method="post" class="space-y-6">
                    <input type="hidden" name="_csrf" value="">
                    <div>
                        <label for="email" class="form-label">Email address</label>
                        <input type="email" name="email" id="email" class="form-input" required autofocus>
                    </div>
                    <div>
                        <label for="password" class="form-label">Password</label>
                        <input type="password" name="password" id="password" class="form-input" required>
                    </div>
                    <button type="submit" class="btn btn-primary w-full">Sign in</button>
                </form>
                <p class="mt-6 text-center text-sm text-gray-600 dark:text-warm-400">
                    <a href="/register" class="font-medium text-blue-600 hover:text-blue-500 dark:text-blue-400 dark:hover:text-blue-300">Create one</a>
                </p>
            </div>
        </div>
    </div>
    <script src="/assets/js/app.js"></script>
</body>
</html>
    "#;

/// Part of the `REGISTER_PAGE` template.
pub const REGISTER_PAGE: &'static str = r#"
<!DOCTYPE html>
<html lang="en">
<head>
    <meta charset="UTF-8">
    <meta name="viewport" content="width=device-width, initial-scale=1.0">
    <title>Register - FastClient</title>
    <link rel="stylesheet" href="/assets/css/app.css">
    <script src="/assets/js/htmx.min.js"></script>
    <script src="/assets/js/htmx-ext-preload.js"></script>
    <script>
        if (localStorage.getItem('theme') === 'dark' || (!localStorage.getItem('theme') && window.matchMedia('(prefers-color-scheme: dark)').matches)) {
            document.documentElement.classList.add('dark');
        }
    </script>
</head>
<body class="bg-gray-50 min-h-screen dark:bg-warm-950" hx-ext="preload">
    <div class="flex min-h-full flex-col justify-center py-12 px-4 sm:px-6 lg:px-8">
        <div class="sm:mx-auto sm:w-full sm:max-w-md">
            <h1 class="text-center text-3xl font-bold tracking-tight text-gray-900 dark:text-warm-100">FastClient</h1>
            <h2 class="mt-2 text-center text-lg text-gray-600 dark:text-warm-400">Create your account</h2>
        </div>
        <div class="mt-6 sm:mx-auto sm:w-full sm:max-w-md">
            <div class="bg-white dark:bg-warm-800 py-8 px-4 shadow-lg sm:rounded-xl sm:px-10">
                <form action="/register" method="post" class="space-y-6">
                    <input type="hidden" name="_csrf" value="">
                    <div>
                        <label for="name" class="form-label">Full Name</label>
                        <input type="text" name="name" id="name" class="form-input" required autofocus>
                    </div>
                    <div>
                        <label for="email" class="form-label">Email address</label>
                        <input type="email" name="email" id="email" class="form-input" required>
                    </div>
                    <div>
                        <label for="password" class="form-label">Password</label>
                        <input type="password" name="password" id="password" class="form-input" required>
                    </div>
                    <div>
                        <label for="password_confirmation" class="form-label">Confirm Password</label>
                        <input type="password" name="password_confirmation" id="password_confirmation" class="form-input" required>
                    </div>
                    <button type="submit" class="btn btn-primary w-full">Create Account</button>
                </form>
                <p class="mt-6 text-center text-sm text-gray-600 dark:text-warm-400">
                    <a href="/login" class="font-medium text-blue-600 hover:text-blue-500 dark:text-blue-400 dark:hover:text-blue-300">Sign in</a>
                </p>
            </div>
        </div>
    </div>
    <script src="/assets/js/app.js"></script>
</body>
</html>
    "#;


} // verus!
